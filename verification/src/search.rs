//! Emote and user search: the search request each query makes, and how the
//! answer is paged.
use vstd::prelude::*;
use crate::error::{api_error, ApiError, ApiErrorCode, StatusCode};
use crate::ids::{format_id, id_text, Id};
use crate::messages::sanitized;
use crate::text::{chars_of, join, joined, push_str, remove_char, string_of, texts, trim_end_matches_char};

verus! {

/// The lists an emote search can be drawn from.
#[derive(Clone, Copy, Debug, PartialEq, Eq, Structural)]
pub enum EmoteSearchCategory {
    Top,
    TrendingDay,
    TrendingWeek,
    TrendingMonth,
    Featured,
    New,
    Global,
}

/// The direction of a sort.
#[derive(Clone, Copy, Debug, PartialEq, Eq, Structural)]
pub enum EmoteSearchSortOrder {
    Ascending,
    Descending,
}

/// How emote search results are sorted.
#[derive(Clone, Debug)]
pub struct EmoteSearchSort {
    pub value: String,
    pub order: EmoteSearchSortOrder,
}

/// The narrowing an emote search asks for.
#[derive(Clone, Debug)]
pub struct EmoteSearchFilter {
    pub category: Option<EmoteSearchCategory>,
    pub case_sensitive: Option<bool>,
    pub exact_match: Option<bool>,
    pub ignore_tags: Option<bool>,
    pub animated: Option<bool>,
    pub zero_width: Option<bool>,
    pub authentic: Option<bool>,
    pub aspect_ratio: Option<String>,
    pub personal_use: Option<bool>,
}

/// A name an emote is commonly used under, and how often.
#[derive(Clone, Debug)]
pub struct EmoteCommonName {
    pub name: String,
    pub count: u32,
}

/// A request to the search index.
#[derive(Clone, Debug)]
pub struct SearchPlan {
    pub query: String,
    pub page: Option<u32>,
    pub per_page: Option<u32>,
    pub query_by: Vec<String>,
    pub query_by_weights: Vec<u32>,
    pub prefix: Vec<String>,
    pub filter_by: String,
    pub sort_by: Vec<String>,
}

/// The queries on emotes.
#[derive(Clone, Copy, Debug, Default)]
pub struct EmotesQuery;

/// The queries on users.
#[derive(Clone, Copy, Debug, Default)]
pub struct UsersQuery;

/// `s` alone when `b` holds, nothing otherwise.
pub open spec fn when(b: bool, s: Seq<char>) -> Seq<Seq<char>> {
    if b { seq![s] } else { Seq::empty() }
}

/// Whether an optional flag is set to true.
pub open spec fn is_true(b: Option<bool>) -> bool {
    b == Some(true)
}

/// The word a sort order is written with.
pub open spec fn order_word(sort: Option<EmoteSearchSortOrder>) -> Seq<char> {
    match sort {
        Some(EmoteSearchSortOrder::Ascending) => "asc"@,
        _ => "desc"@,
    }
}

/// The score a category sorts by, and whether it also asks for a positive
/// score.
pub open spec fn category_score(c: Option<EmoteSearchCategory>) -> Seq<char> {
    match c {
        None | Some(EmoteSearchCategory::Top) => "score_top_all_time"@,
        Some(EmoteSearchCategory::Featured) | Some(EmoteSearchCategory::TrendingDay) => "score_trending_day"@,
        Some(EmoteSearchCategory::TrendingWeek) => "score_trending_week"@,
        Some(EmoteSearchCategory::TrendingMonth) => "score_trending_month"@,
        _ => "created_at"@,
    }
}

/// Whether a category keeps only emotes with a positive score.
pub open spec fn needs_positive_score(c: Option<EmoteSearchCategory>) -> bool {
    match c {
        Some(EmoteSearchCategory::Featured) | Some(EmoteSearchCategory::TrendingDay) | Some(EmoteSearchCategory::TrendingWeek)
        | Some(EmoteSearchCategory::TrendingMonth) => true,
        _ => false,
    }
}

/// The filters every emote search has: deleted emotes left out, and
/// unlisted or private ones for those who may not see them.
pub open spec fn base_filters(view_unlisted: bool) -> Seq<Seq<char>> {
    seq!["deleted: false"@] + when(!view_unlisted, "flag_public_listed: true"@) + when(!view_unlisted, "flag_private: false"@)
}

/// The filters an emote filter's flags ask for.
pub open spec fn flag_filters(f: EmoteSearchFilter) -> Seq<Seq<char>> {
    when(is_true(f.animated), "flag_animated: true"@) + when(is_true(f.zero_width), "flag_default_zero_width: true"@) + when(
        is_true(f.personal_use),
        "flag_approved_personal: true"@,
    )
}

/// The filters an emote filter's exact match and category ask for.
pub open spec fn term_filters(query: Seq<char>, f: EmoteSearchFilter) -> Seq<Seq<char>> {
    when(is_true(f.exact_match) && query.len() > 0, "default_name: `"@ + sanitized(query) + "`"@) + when(
        needs_positive_score(f.category),
        category_score(f.category) + ":>0"@,
    )
}

/// The filters of an emote search, in order.
pub open spec fn emote_filters(query: Seq<char>, filter: Option<EmoteSearchFilter>, view_unlisted: bool) -> Seq<Seq<char>> {
    match filter {
        None => base_filters(view_unlisted),
        Some(f) => base_filters(view_unlisted) + flag_filters(f) + term_filters(query, f),
    }
}

/// The sorts of an emote search, in order.
pub open spec fn emote_sorts(filter: Option<EmoteSearchFilter>, sort: Option<EmoteSearchSortOrder>) -> Seq<Seq<char>> {
    let base = seq!["_text_match(buckets: 10):desc"@];
    match filter {
        None => base,
        Some(f) => base.push(category_score(f.category) + ":"@ + order_word(sort)),
    }
}

/// Whether an emote search also matches tags.
pub open spec fn matches_tags(filter: Option<EmoteSearchFilter>) -> bool {
    match filter {
        Some(f) => f.ignore_tags != Some(true),
        None => false,
    }
}

pub open spec fn global_search_unsupported() -> ApiError {
    api_error(StatusCode::NotImplemented, ApiErrorCode::BadRequest, "global emote search is not implemented")
}

/// Appends a text to a list of strings.
fn push_text(v: &mut Vec<String>, s: &str)
    ensures
        texts(final(v)@) == texts(old(v)@).push(s@),
{
    let ghost before = v@;
    v.push(s.to_owned());
    assert(texts(v@) =~= texts(before).push(s@));
}

/// Appends a string to a list of strings.
fn push_string(v: &mut Vec<String>, s: String)
    ensures
        texts(final(v)@) == texts(old(v)@).push(s@),
{
    let ghost before = v@;
    let ghost t = s@;
    v.push(s);
    assert(texts(v@) =~= texts(before).push(t));
}

/// The score a category sorts by.
fn category_score_text(c: Option<EmoteSearchCategory>) -> (r: &'static str)
    requires
        c != Some(EmoteSearchCategory::Global),
    ensures
        r@ == category_score(c),
{
    match c {
        None | Some(EmoteSearchCategory::Top) => "score_top_all_time",
        Some(EmoteSearchCategory::Featured) | Some(EmoteSearchCategory::TrendingDay) => "score_trending_day",
        Some(EmoteSearchCategory::TrendingWeek) => "score_trending_week",
        Some(EmoteSearchCategory::TrendingMonth) => "score_trending_month",
        _ => "created_at",
    }
}

/// The filters every emote search has.
fn base_filter_list(view_unlisted: bool) -> (r: Vec<String>)
    ensures
        texts(r@) == base_filters(view_unlisted),
{
    let mut filters: Vec<String> = Vec::new();
    push_text(&mut filters, "deleted: false");
    if !view_unlisted {
        push_text(&mut filters, "flag_public_listed: true");
        push_text(&mut filters, "flag_private: false");
    }
    assert(texts(filters@) =~= base_filters(view_unlisted));
    filters
}

/// Appends the filters an emote filter's flags ask for.
fn push_flag_filters(filters: &mut Vec<String>, f: &EmoteSearchFilter)
    ensures
        texts(final(filters)@) == texts(old(filters)@) + flag_filters(*f),
{
    let ghost f0 = texts(filters@);
    if f.animated == Some(true) {
        push_text(filters, "flag_animated: true");
    }
    let ghost f1 = texts(filters@);
    assert(f1 =~= f0 + when(is_true(f.animated), "flag_animated: true"@));
    if f.zero_width == Some(true) {
        push_text(filters, "flag_default_zero_width: true");
    }
    let ghost f2 = texts(filters@);
    assert(f2 =~= f1 + when(is_true(f.zero_width), "flag_default_zero_width: true"@));
    if f.personal_use == Some(true) {
        push_text(filters, "flag_approved_personal: true");
    }
    assert(texts(filters@) =~= f2 + when(is_true(f.personal_use), "flag_approved_personal: true"@));
    assert(texts(filters@) =~= f0 + flag_filters(*f));
}

/// Appends the filters an emote filter's exact match and category ask for.
fn push_term_filters(filters: &mut Vec<String>, query: &String, f: &EmoteSearchFilter)
    requires
        f.category != Some(EmoteSearchCategory::Global),
    ensures
        texts(final(filters)@) == texts(old(filters)@) + term_filters(query@, *f),
{
    let ghost f0 = texts(filters@);
    if f.exact_match == Some(true) && !query.as_str().is_empty() {
        let cs = chars_of(query.as_str());
        let no_ticks = remove_char(&cs, '`');
        let trimmed = trim_end_matches_char(&no_ticks, '\\');
        let mut t: Vec<char> = Vec::new();
        push_str(&mut t, "default_name: `");
        t.append(&mut trimmed.clone());
        push_str(&mut t, "`");
        assert(t@ =~= "default_name: `"@ + sanitized(query@) + "`"@);
        push_string(filters, string_of(&t));
    }
    let ghost f1 = texts(filters@);
    assert(f1 =~= f0 + when(is_true(f.exact_match) && query@.len() > 0, "default_name: `"@ + sanitized(query@) + "`"@));
    let positive = match f.category {
        Some(EmoteSearchCategory::Featured) | Some(EmoteSearchCategory::TrendingDay) | Some(EmoteSearchCategory::TrendingWeek)
        | Some(EmoteSearchCategory::TrendingMonth) => true,
        _ => false,
    };
    if positive {
        let mut t: Vec<char> = Vec::new();
        push_str(&mut t, category_score_text(f.category));
        push_str(&mut t, ":>0");
        push_string(filters, string_of(&t));
    }
    assert(texts(filters@) =~= f1 + when(needs_positive_score(f.category), category_score(f.category) + ":>0"@));
    assert(texts(filters@) =~= f0 + term_filters(query@, *f));
}

/// The sort an emote filter asks for: its category's score, in the given
/// order, descending when none is given.
fn category_sort(f: &EmoteSearchFilter, order: Option<EmoteSearchSortOrder>) -> (r: String)
    requires
        f.category != Some(EmoteSearchCategory::Global),
    ensures
        r@ == category_score(f.category) + ":"@ + order_word(order),
{
    let word: &str = match order {
        Some(EmoteSearchSortOrder::Ascending) => "asc",
        _ => "desc",
    };
    let mut t: Vec<char> = Vec::new();
    push_str(&mut t, category_score_text(f.category));
    push_str(&mut t, ":");
    push_str(&mut t, word);
    string_of(&t)
}

impl EmotesQuery {
    /// The search an emote query makes: page at least 1, 30 results per
    /// page unless asked otherwise; deleted emotes left out, and unlisted
    /// or private ones too for those who may not see them; the filters and
    /// sorts the filter asks for. Searching the global list is not offered.
    pub fn emotes_search(
        query: &String,
        page: Option<u32>,
        limit: Option<u32>,
        filter: &Option<EmoteSearchFilter>,
        sort: &Option<EmoteSearchSort>,
        view_unlisted: bool,
    ) -> (r: Result<SearchPlan, ApiError>)
        ensures
            (filter matches Some(f) && f.category == Some(EmoteSearchCategory::Global)) ==> r == Err::<SearchPlan, ApiError>(
                global_search_unsupported(),
            ),
            !(filter matches Some(f) && f.category == Some(EmoteSearchCategory::Global)) ==> (r matches Ok(p) && {
                let order = match sort {
                    Some(s) => Some(s.order),
                    None => None,
                };
                &&& p.query@ == query@
                &&& p.page == Some(match page {
                    Some(n) => if n < 1 { 1u32 } else { n },
                    None => 1u32,
                })
                &&& p.per_page == Some(match limit {
                    Some(l) => l,
                    None => 30u32,
                })
                &&& p.filter_by@ == joined(emote_filters(query@, *filter, view_unlisted), " && "@)
                &&& texts(p.sort_by@) == emote_sorts(*filter, order)
                &&& texts(p.query_by@) == seq!["default_name"@] + when(matches_tags(*filter), "tags"@)
                &&& texts(p.prefix@) == seq!["true"@] + when(matches_tags(*filter), "false"@)
                &&& p.query_by_weights@ == (if matches_tags(*filter) { seq![4u32, 1u32] } else { seq![4u32] })
            }),
    {
        let per_page: u32 = match limit {
            Some(l) => l,
            None => 30,
        };
        let page: u32 = match page {
            Some(n) => if n < 1 { 1 } else { n },
            None => 1,
        };
        let mut filters = base_filter_list(view_unlisted);
        let mut query_by: Vec<String> = Vec::new();
        push_text(&mut query_by, "default_name");
        let mut prefix: Vec<String> = Vec::new();
        push_text(&mut prefix, "true");
        let mut weights: Vec<u32> = Vec::new();
        weights.push(4);
        let mut sort_by: Vec<String> = Vec::new();
        push_text(&mut sort_by, "_text_match(buckets: 10):desc");
        let order = match sort {
            Some(s) => Some(s.order),
            None => None,
        };
        if let Some(f) = filter {
            if f.category == Some(EmoteSearchCategory::Global) {
                return Err(ApiError::not_implemented(ApiErrorCode::BadRequest, "global emote search is not implemented"));
            }
            push_flag_filters(&mut filters, f);
            push_term_filters(&mut filters, query, f);
            push_string(&mut sort_by, category_sort(f, order));
            if f.ignore_tags != Some(true) {
                push_text(&mut query_by, "tags");
                push_text(&mut prefix, "false");
                weights.push(1);
            }
        }
        assert(texts(sort_by@) =~= emote_sorts(*filter, order));
        assert(texts(filters@) =~= emote_filters(query@, *filter, view_unlisted));
        assert(texts(query_by@) =~= seq!["default_name"@] + when(matches_tags(*filter), "tags"@));
        assert(texts(prefix@) =~= seq!["true"@] + when(matches_tags(*filter), "false"@));
        assert(weights@ =~= (if matches_tags(*filter) { seq![4u32, 1u32] } else { seq![4u32] }));
        let filter_by = join(&filters, " && ");
        Ok(SearchPlan {
            query: query.clone(),
            page: Some(page),
            per_page: Some(per_page),
            query_by,
            query_by_weights: weights,
            prefix,
            filter_by,
            sort_by,
        })
    }
}

/// The least of two numbers.
pub open spec fn min_u32(a: u32, b: u32) -> u32 {
    if a < b { a } else { b }
}

impl EmotesQuery {
    /// The count and the last page of an emote search answer: the number
    /// found, as a 32-bit count, and one more than the full pages it fills,
    /// at most 100.
    pub fn result_pages(found: u64, limit: u32) -> (r: (u32, u32))
        requires
            limit > 0,
            (found as u32) / limit < u32::MAX,
        ensures
            r.0 == found as u32,
            r.1 == min_u32(((found as u32) / limit + 1) as u32, 100),
    {
        let count = found as u32;
        let pages = count / limit + 1;
        (count, if pages < 100 { pages } else { 100 })
    }

    /// Where an emote stands in the trending list, counting from 1.
    pub fn trending_rank(trending: &Vec<Id>, id: Id) -> (r: Option<u32>)
        requires
            trending@.len() < u32::MAX,
        ensures
            match r {
                Some(k) => 1 <= k <= trending@.len() && trending@[k - 1] == id && forall|j: int| 0 <= j < k - 1 ==> trending@[j] != id,
                None => !trending@.contains(id),
            },
    {
        let mut i: usize = 0;
        while i < trending.len()
            invariant
                trending@.len() < u32::MAX,
                i <= trending@.len(),
                forall|j: int| 0 <= j < i ==> trending@[j] != id,
            decreases trending@.len() - i,
        {
            if trending[i] == id {
                return Some(i as u32 + 1);
            }
            i = i + 1;
        }
        None
    }

    /// The search for the users that have an emote in a set: ranked by
    /// their highest hoisted role, 30 to a page unless asked otherwise.
    pub fn channels_search(emote_id: Id, page: Option<u32>, limit: Option<u32>) -> (r: SearchPlan)
        ensures
            r.query@ == "*"@,
            r.filter_by@ == "emotes: "@ + id_text(emote_id),
            texts(r.sort_by@) == seq!["role_hoist_rank:desc"@],
            r.page == page,
            r.per_page == Some(match limit {
                Some(l) => l,
                None => 30u32,
            }),
            r.query_by@.len() == 0,
            r.query_by_weights@.len() == 0,
            r.prefix@.len() == 0,
    {
        let mut f: Vec<char> = Vec::new();
        push_str(&mut f, "emotes: ");
        let id = format_id(emote_id);
        push_str(&mut f, id.as_str());
        let mut sort_by: Vec<String> = Vec::new();
        push_text(&mut sort_by, "role_hoist_rank:desc");
        assert(texts(sort_by@) =~= seq!["role_hoist_rank:desc"@]);
        SearchPlan {
            query: "*".to_owned(),
            page,
            per_page: Some(match limit {
                Some(l) => l,
                None => 30,
            }),
            query_by: Vec::new(),
            query_by_weights: Vec::new(),
            prefix: Vec::new(),
            filter_by: string_of(&f),
            sort_by,
        }
    }
}

impl UsersQuery {
    /// The search a user query makes: by the names on each platform,
    /// Twitch weighing most, best text match first, then highest role.
    pub fn users_search(query: &String, page: Option<u32>, limit: Option<u32>) -> (r: SearchPlan)
        ensures
            r.query@ == query@,
            texts(r.query_by@) == seq!["twitch_names"@, "kick_names"@, "google_names"@, "discord_names"@],
            r.query_by_weights@ == seq![4u32, 1u32, 1u32, 1u32],
            texts(r.sort_by@) == seq!["_text_match(buckets: 10):desc"@, "role_rank:desc"@],
            r.page == page,
            r.per_page == limit,
            r.filter_by@.len() == 0,
            r.prefix@.len() == 0,
    {
        let mut query_by: Vec<String> = Vec::new();
        push_text(&mut query_by, "twitch_names");
        push_text(&mut query_by, "kick_names");
        push_text(&mut query_by, "google_names");
        push_text(&mut query_by, "discord_names");
        let mut sort_by: Vec<String> = Vec::new();
        push_text(&mut sort_by, "_text_match(buckets: 10):desc");
        push_text(&mut sort_by, "role_rank:desc");
        assert(texts(query_by@) =~= seq!["twitch_names"@, "kick_names"@, "google_names"@, "discord_names"@]);
        assert(texts(sort_by@) =~= seq!["_text_match(buckets: 10):desc"@, "role_rank:desc"@]);
        SearchPlan {
            query: query.clone(),
            page,
            per_page: limit,
            query_by,
            query_by_weights: vec![4, 1, 1, 1],
            prefix: Vec::new(),
            filter_by: String::new(),
            sort_by,
        }
    }
}

proof fn lemma_contains_concat(a: Seq<Seq<char>>, b: Seq<Seq<char>>, x: Seq<char>)
    ensures
        (a + b).contains(x) <==> (a.contains(x) || b.contains(x)),
{
    if (a + b).contains(x) {
        let j = choose|j: int| 0 <= j < (a + b).len() && (a + b)[j] == x;
        if j < a.len() {
            assert(a[j] == x);
        } else {
            assert(b[j - a.len()] == x);
        }
    }
    if a.contains(x) {
        let j = choose|j: int| 0 <= j < a.len() && a[j] == x;
        assert((a + b)[j] == x);
    }
    if b.contains(x) {
        let j = choose|j: int| 0 <= j < b.len() && b[j] == x;
        assert((a + b)[j + a.len()] == x);
    }
}

/// Each flag a search filter sets to true narrows the search by its own
/// term, and only then: the filters hold "flag_animated: true",
/// "flag_default_zero_width: true" and "flag_approved_personal: true"
/// exactly when the filter sets the animated, zero-width and personal-use
/// flags to true.
pub proof fn true_flags_filter(query: Seq<char>, f: EmoteSearchFilter, view_unlisted: bool)
    ensures
        emote_filters(query, Some(f), view_unlisted).contains("flag_animated: true"@) <==> f.animated == Some(true),
        emote_filters(query, Some(f), view_unlisted).contains("flag_default_zero_width: true"@) <==> f.zero_width == Some(true),
        emote_filters(query, Some(f), view_unlisted).contains("flag_approved_personal: true"@) <==> f.personal_use == Some(true),
{
    reveal_strlit("flag_animated: true");
    reveal_strlit("flag_default_zero_width: true");
    reveal_strlit("flag_approved_personal: true");
    reveal_strlit("deleted: false");
    reveal_strlit("flag_public_listed: true");
    reveal_strlit("flag_private: false");
    reveal_strlit("default_name: `");
    reveal_strlit(":>0");
    reveal_strlit("score_top_all_time");
    reveal_strlit("score_trending_day");
    reveal_strlit("score_trending_week");
    reveal_strlit("score_trending_month");
    reveal_strlit("created_at");
    let s = emote_filters(query, Some(f), view_unlisted);
    let b = base_filters(view_unlisted);
    let fl = flag_filters(f);
    let t = term_filters(query, f);
    assert(s =~= b + fl + t);
    let targets = seq!["flag_animated: true"@, "flag_default_zero_width: true"@, "flag_approved_personal: true"@];
    assert forall|x: Seq<char>| #[trigger] targets.contains(x) implies !b.contains(x) && !t.contains(x) by {
        if b.contains(x) {
            let j = choose|j: int| 0 <= j < b.len() && b[j] == x;
            assert(x.len() != b[j].len() || x[5] != b[j][5]);
        }
        if t.contains(x) {
            let j = choose|j: int| 0 <= j < t.len() && t[j] == x;
            assert(x[0] != t[j][0]);
        }
    }
    assert(targets.contains(targets[0]));
    assert(targets.contains(targets[1]));
    assert(targets.contains(targets[2]));
    let a = "flag_animated: true"@;
    let z = "flag_default_zero_width: true"@;
    let p = "flag_approved_personal: true"@;
    let w1 = when(is_true(f.animated), a);
    let w2 = when(is_true(f.zero_width), z);
    let w3 = when(is_true(f.personal_use), p);
    assert(fl =~= w1 + w2 + w3);
    assert(a.len() == 19 && z.len() == 29 && p.len() == 28);
    assert forall|x: Seq<char>| targets.contains(x) implies (s.contains(x) <==> (w1.contains(x) || w2.contains(x)
        || w3.contains(x))) by {
        lemma_contains_concat(b + fl, t, x);
        lemma_contains_concat(b, fl, x);
        lemma_contains_concat(w1 + w2, w3, x);
        lemma_contains_concat(w1, w2, x);
    }
    assert(w1.contains(a) <==> is_true(f.animated)) by {
        if is_true(f.animated) {
            assert(w1[0] == a);
        }
    }
    assert(w2.contains(z) <==> is_true(f.zero_width)) by {
        if is_true(f.zero_width) {
            assert(w2[0] == z);
        }
    }
    assert(w3.contains(p) <==> is_true(f.personal_use)) by {
        if is_true(f.personal_use) {
            assert(w3[0] == p);
        }
    }
}

} // verus!
