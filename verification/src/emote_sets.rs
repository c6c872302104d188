//! Emote sets: adding, renaming and removing emotes, and the checks that
//! guard each change.
use vstd::prelude::*;
use crate::emotes::{
    contains_flag, has_flag, EmoteInfo, EMOTE_FLAG_APPROVED_PERSONAL, EMOTE_FLAG_DEFAULT_ZERO_WIDTH,
    EMOTE_FLAG_DENIED_PERSONAL, EMOTE_FLAG_PRIVATE,
};
use crate::error::{api_error, ApiError, ApiErrorCode, StatusCode};
use crate::types::ListItemAction;
use crate::ids::Id;

verus! {

/// What kind of set an emote set is.
#[derive(Clone, Copy, Debug, PartialEq, Eq, Structural)]
pub enum EmoteSetKind {
    Normal,
    Personal,
    Global,
    Special,
}

/// An emote as it stands in a set, under its alias.
#[derive(Clone, Debug)]
pub struct EmoteSetEmote {
    pub id: Id,
    pub alias: String,
    pub added_by_id: Option<Id>,
    pub added_at: i64,
    pub zero_width: bool,
    pub origin_set_id: Option<Id>,
}

impl EmoteSetEmote {
    /// An equal copy of the entry.
    pub fn duplicate(&self) -> (r: EmoteSetEmote)
        ensures
            r == *self,
    {
        EmoteSetEmote {
            id: self.id,
            alias: self.alias.clone(),
            added_by_id: self.added_by_id,
            added_at: self.added_at,
            zero_width: self.zero_width,
            origin_set_id: self.origin_set_id,
        }
    }
}

/// An emote set.
#[derive(Clone, Debug)]
pub struct EmoteSet {
    pub id: Id,
    pub owner_id: Option<Id>,
    pub name: String,
    pub capacity: Option<i32>,
    pub emotes: Vec<EmoteSetEmote>,
    pub kind: EmoteSetKind,
}

/// What adding an emote will do once the checks have passed.
#[derive(Clone, Debug)]
pub struct AddPlan {
    /// The alias the emote is added under.
    pub alias: String,
    /// The entry with the same alias that the new one replaces, if any.
    pub replace_index: Option<usize>,
    /// Whether the emote needs a personal-use moderation request first.
    pub request_personal_use: bool,
}

pub open spec fn capacity_error() -> ApiError {
    api_error(StatusCode::BadRequest, ApiErrorCode::BadRequest, "emote set is at capacity")
}

pub open spec fn emote_not_found() -> ApiError {
    api_error(StatusCode::NotFound, ApiErrorCode::BadRequest, "emote not found")
}

pub open spec fn emote_private() -> ApiError {
    api_error(StatusCode::BadRequest, ApiErrorCode::BadRequest, "emote is private")
}

pub open spec fn alias_conflict() -> ApiError {
    api_error(StatusCode::Conflict, ApiErrorCode::BadRequest, "this emote has a conflicting name")
}

pub open spec fn personal_denied() -> ApiError {
    api_error(StatusCode::BadRequest, ApiErrorCode::BadRequest, "emote is not allowed in personal emote sets")
}

pub open spec fn not_in_set() -> ApiError {
    api_error(StatusCode::NotFound, ApiErrorCode::BadRequest, "emote not found in set")
}

pub open spec fn rename_conflict() -> ApiError {
    api_error(StatusCode::Conflict, ApiErrorCode::BadRequest, "emote name conflict")
}

/// A set with the given capacity and number of emotes takes no more emotes.
pub open spec fn at_capacity(capacity: Option<i32>, len: nat) -> bool {
    match capacity {
        Some(c) => (len as i32) >= c,
        None => false,
    }
}

/// The alias an emote is added or renamed under: the requested name, else
/// the emote's default name.
pub open spec fn alias_for(name: Option<String>, emote: EmoteInfo) -> Seq<char> {
    match name {
        Some(n) => n@,
        None => emote.default_name@,
    }
}

/// The first position at or after `from` whose alias is `a`.
pub open spec fn alias_pos(s: Seq<EmoteSetEmote>, a: Seq<char>, from: int) -> Option<int>
    decreases s.len() - from,
{
    if from < 0 || from >= s.len() {
        None
    } else if s[from].alias@ == a {
        Some(from)
    } else {
        alias_pos(s, a, from + 1)
    }
}

/// The first emote of `loaded` with the given id.
pub open spec fn emote_lookup(loaded: Seq<EmoteInfo>, id: Id, from: int) -> Option<EmoteInfo>
    decreases loaded.len() - from,
{
    if from < 0 || from >= loaded.len() {
        None
    } else if loaded[from].id == id {
        Some(loaded[from])
    } else {
        emote_lookup(loaded, id, from + 1)
    }
}

/// A private emote may only go into its owner's sets.
pub open spec fn private_blocked(set_owner: Option<Id>, e: EmoteInfo) -> bool {
    has_flag(e.flags, EMOTE_FLAG_PRIVATE) && match set_owner {
        None => true,
        Some(o) => e.owner_id != o,
    }
}

/// Why adding the emote is refused, if it is: a full set; a missing, deleted
/// or merged emote; a private emote of someone else; an alias taken by an
/// emote that is not deleted; or, for a personal set, an emote denied
/// personal use.
pub open spec fn add_rejection(
    set_owner: Option<Id>,
    capacity: Option<i32>,
    kind: EmoteSetKind,
    emotes: Seq<EmoteSetEmote>,
    emote: Option<EmoteInfo>,
    name: Option<String>,
    loaded: Seq<EmoteInfo>,
) -> Option<ApiError> {
    if at_capacity(capacity, emotes.len()) {
        Some(capacity_error())
    } else {
        match emote {
            None => Some(emote_not_found()),
            Some(e) => if e.deleted || e.merged {
                Some(emote_not_found())
            } else if private_blocked(set_owner, e) {
                Some(emote_private())
            } else if (match alias_pos(emotes, alias_for(name, e), 0) {
                Some(i) => match emote_lookup(loaded, emotes[i].id, 0) {
                    Some(c) => !c.deleted,
                    None => false,
                },
                None => false,
            }) {
                Some(alias_conflict())
            } else if kind == EmoteSetKind::Personal && has_flag(e.flags, EMOTE_FLAG_DENIED_PERSONAL) {
                Some(personal_denied())
            } else {
                None
            },
        }
    }
}

/// The first position in the set whose alias is `alias`.
pub fn find_alias(emotes: &Vec<EmoteSetEmote>, alias: &String) -> (r: Option<usize>)
    ensures
        r matches Some(i) ==> i < emotes@.len(),
        match r {
            Some(i) => alias_pos(emotes@, alias@, 0) == Some(i as int),
            None => alias_pos(emotes@, alias@, 0) is None,
        },
{
    let mut i: usize = 0;
    while i < emotes.len()
        invariant
            i <= emotes@.len(),
            alias_pos(emotes@, alias@, 0) == alias_pos(emotes@, alias@, i as int),
        decreases emotes@.len() - i,
    {
        if emotes[i].alias == *alias {
            return Some(i);
        }
        i = i + 1;
    }
    None
}

/// The first loaded emote with the given id.
pub fn find_emote(loaded: &Vec<EmoteInfo>, id: Id) -> (r: Option<&EmoteInfo>)
    ensures
        match r {
            Some(e) => emote_lookup(loaded@, id, 0) == Some(*e),
            None => emote_lookup(loaded@, id, 0) is None,
        },
{
    let mut i: usize = 0;
    while i < loaded.len()
        invariant
            i <= loaded@.len(),
            emote_lookup(loaded@, id, 0) == emote_lookup(loaded@, id, i as int),
        decreases loaded@.len() - i,
    {
        if loaded[i].id == id {
            return Some(&loaded[i]);
        }
        i = i + 1;
    }
    None
}

/// Refuses an add to a set that is already full.
pub fn check_add_capacity(capacity: Option<i32>, len: usize) -> (r: Result<(), ApiError>)
    ensures
        r == (if at_capacity(capacity, len as nat) { Err(capacity_error()) } else { Ok(()) }),
{
    match capacity {
        Some(c) => {
            if (len as i32) >= c {
                Err(ApiError::bad_request(ApiErrorCode::BadRequest, "emote set is at capacity"))
            } else {
                Ok(())
            }
        },
        None => Ok(()),
    }
}

/// Checks whether the emote may be added to the set, and plans the add.
/// `emote` is the stored emote, `loaded` the stored emotes of the set as the
/// emote loader found them.
pub fn emote_add_check(set: &EmoteSet, emote: &Option<EmoteInfo>, name: Option<String>, loaded: &Vec<EmoteInfo>) -> (r: Result<AddPlan, ApiError>)
    ensures
        match r {
            Err(err) => add_rejection(set.owner_id, set.capacity, set.kind, set.emotes@, *emote, name, loaded@)
                == Some(err),
            Ok(plan) => {
                &&& add_rejection(set.owner_id, set.capacity, set.kind, set.emotes@, *emote, name, loaded@)
                    is None
                &&& emote is Some
                &&& plan.alias@ == alias_for(name, emote->0)
                &&& match plan.replace_index {
                    Some(i) => alias_pos(set.emotes@, plan.alias@, 0) == Some(i as int),
                    None => alias_pos(set.emotes@, plan.alias@, 0) is None,
                }
                &&& plan.request_personal_use == (set.kind == EmoteSetKind::Personal && !has_flag(
                    emote->0.flags,
                    EMOTE_FLAG_APPROVED_PERSONAL,
                ))
            },
        },
{
    check_add_capacity(set.capacity, set.emotes.len())?;
    let e = match emote {
        None => {
            return Err(ApiError::not_found(ApiErrorCode::BadRequest, "emote not found"));
        },
        Some(e) => e,
    };
    if e.deleted || e.merged {
        return Err(ApiError::not_found(ApiErrorCode::BadRequest, "emote not found"));
    }
    let blocked = contains_flag(e.flags, EMOTE_FLAG_PRIVATE) && match set.owner_id {
        None => true,
        Some(o) => e.owner_id != o,
    };
    if blocked {
        return Err(ApiError::bad_request(ApiErrorCode::BadRequest, "emote is private"));
    }
    let alias = match name {
        Some(n) => n,
        None => e.default_name.clone(),
    };
    let replace_index = find_alias(&set.emotes, &alias);
    if let Some(i) = replace_index {
        if let Some(c) = find_emote(loaded, set.emotes[i].id) {
            if !c.deleted {
                return Err(ApiError::conflict(ApiErrorCode::BadRequest, "this emote has a conflicting name"));
            }
        }
    }
    let mut request_personal_use = false;
    if set.kind == EmoteSetKind::Personal {
        if contains_flag(e.flags, EMOTE_FLAG_DENIED_PERSONAL) {
            return Err(ApiError::bad_request(ApiErrorCode::BadRequest, "emote is not allowed in personal emote sets"));
        } else if !contains_flag(e.flags, EMOTE_FLAG_APPROVED_PERSONAL) {
            request_personal_use = true;
        }
    }
    Ok(AddPlan { alias, replace_index, request_personal_use })
}

/// Refuses a personal-use request that takes the requester over their limit
/// of pending requests.
pub fn check_moderation_request_limit(pending: u64, limit: Option<i32>) -> (r: Result<(), ApiError>)
    ensures
        r == (if (pending as i32) > (match limit {
            Some(l) => l,
            None => 0,
        }) {
            Err(api_error(StatusCode::BadRequest, ApiErrorCode::LackingPrivileges, "too many pending moderation requests"))
        } else {
            Ok(())
        }),
{
    let l = match limit {
        Some(l) => l,
        None => 0,
    };
    if (pending as i32) > l {
        Err(ApiError::bad_request(ApiErrorCode::LackingPrivileges, "too many pending moderation requests"))
    } else {
        Ok(())
    }
}

/// Refuses an add after which the set holds more live emotes than it may.
pub fn check_capacity_after_add(live: u64, capacity: Option<i32>) -> (r: Result<(), ApiError>)
    ensures
        r == (match capacity {
            Some(c) => if (live as i32) > c {
                Err(api_error(StatusCode::BadRequest, ApiErrorCode::LoadError, "emote set is at capacity"))
            } else {
                Ok(())
            },
            None => Ok(()),
        }),
{
    match capacity {
        Some(c) => {
            if (live as i32) > c {
                Err(ApiError::bad_request(ApiErrorCode::LoadError, "emote set is at capacity"))
            } else {
                Ok(())
            }
        },
        None => Ok(()),
    }
}

/// The entry an added emote gets: zero-width when the emote is zero-width by
/// default.
pub fn new_set_emote(emote: &EmoteInfo, added_by_id: Id, alias: String, added_at: i64) -> (e: EmoteSetEmote)
    ensures
        e.id == emote.id,
        e.alias@ == alias@,
        e.added_by_id == Some(added_by_id),
        e.added_at == added_at,
        e.zero_width == has_flag(emote.flags, EMOTE_FLAG_DEFAULT_ZERO_WIDTH),
        e.origin_set_id is None,
{
    EmoteSetEmote {
        id: emote.id,
        alias,
        added_by_id: Some(added_by_id),
        added_at,
        zero_width: contains_flag(emote.flags, EMOTE_FLAG_DEFAULT_ZERO_WIDTH),
        origin_set_id: None,
    }
}

/// The emotes of a set after an add: the new entry replaces the one at
/// `replace`, or is appended.
pub open spec fn add_result(s: Seq<EmoteSetEmote>, replace: Option<int>, entry: EmoteSetEmote) -> Seq<EmoteSetEmote> {
    match replace {
        Some(i) => s.update(i, entry),
        None => s.push(entry),
    }
}

/// Puts an added emote into the set.
pub fn apply_emote_add(emotes: &mut Vec<EmoteSetEmote>, replace_index: Option<usize>, entry: EmoteSetEmote)
    requires
        match replace_index {
            Some(i) => i < old(emotes)@.len(),
            None => true,
        },
    ensures
        final(emotes)@ == add_result(
            old(emotes)@,
            match replace_index {
                Some(i) => Some(i as int),
                None => None,
            },
            entry,
        ),
{
    match replace_index {
        Some(i) => {
            emotes.set(i, entry);
        },
        None => {
            emotes.push(entry);
        },
    }
}

/// The positions, in order, of the entries with the given emote id.
pub open spec fn positions_of(s: Seq<EmoteSetEmote>, id: Id) -> Seq<int>
    decreases s.len(),
{
    if s.len() == 0 {
        Seq::empty()
    } else if s.last().id == id {
        positions_of(s.drop_last(), id).push(s.len() - 1)
    } else {
        positions_of(s.drop_last(), id)
    }
}

/// The entries of `s` whose emote id is not `id`, in order.
pub open spec fn without_emote(s: Seq<EmoteSetEmote>, id: Id) -> Seq<EmoteSetEmote>
    decreases s.len(),
{
    if s.len() == 0 {
        s
    } else if s.last().id == id {
        without_emote(s.drop_last(), id)
    } else {
        without_emote(s.drop_last(), id).push(s.last())
    }
}

/// The entries removing an emote takes out, with their positions; refused
/// when the emote is not in the set.
pub fn emote_remove_check(emotes: &Vec<EmoteSetEmote>, emote_id: Id) -> (r: Result<Vec<(usize, EmoteSetEmote)>, ApiError>)
    ensures
        match r {
            Err(err) => err == not_in_set() && positions_of(emotes@, emote_id).len() == 0,
            Ok(removed) => {
                &&& positions_of(emotes@, emote_id).len() > 0
                &&& removed@.len() == positions_of(emotes@, emote_id).len()
                &&& forall|k: int| 0 <= k < removed@.len() ==> {
                    &&& #[trigger] removed@[k].0 as int == positions_of(emotes@, emote_id)[k]
                    &&& removed@[k].1.id == emote_id
                    &&& removed@[k].1.alias@ == emotes@[removed@[k].0 as int].alias@
                }
            },
        },
{
    let mut removed: Vec<(usize, EmoteSetEmote)> = Vec::new();
    let mut i: usize = 0;
    while i < emotes.len()
        invariant
            i <= emotes@.len(),
            removed@.len() == positions_of(emotes@.subrange(0, i as int), emote_id).len(),
            forall|k: int| 0 <= k < removed@.len() ==> {
                &&& #[trigger] removed@[k].0 as int == positions_of(emotes@.subrange(0, i as int), emote_id)[k]
                &&& removed@[k].1.id == emote_id
                &&& removed@[k].0 < i
                &&& removed@[k].1.alias@ == emotes@[removed@[k].0 as int].alias@
            },
        decreases emotes@.len() - i,
    {
        let ghost prefix = emotes@.subrange(0, i as int);
        assert(emotes@.subrange(0, i + 1).drop_last() =~= prefix);
        if emotes[i].id == emote_id {
            removed.push((i, emotes[i].duplicate()));
        }
        i = i + 1;
    }
    assert(emotes@.subrange(0, emotes@.len() as int) =~= emotes@);
    if removed.len() == 0 {
        return Err(ApiError::not_found(ApiErrorCode::BadRequest, "emote not found in set"));
    }
    Ok(removed)
}

/// Takes every entry of the emote out of the set.
pub fn apply_emote_remove(emotes: &Vec<EmoteSetEmote>, emote_id: Id) -> (r: Vec<EmoteSetEmote>)
    ensures
        r@ == without_emote(emotes@, emote_id),
{
    let mut r: Vec<EmoteSetEmote> = Vec::new();
    let mut i: usize = 0;
    while i < emotes.len()
        invariant
            i <= emotes@.len(),
            r@ == without_emote(emotes@.subrange(0, i as int), emote_id),
        decreases emotes@.len() - i,
    {
        assert(emotes@.subrange(0, i + 1).drop_last() =~= emotes@.subrange(0, i as int));
        if emotes[i].id != emote_id {
            r.push(emotes[i].duplicate());
        }
        i = i + 1;
    }
    assert(emotes@.subrange(0, emotes@.len() as int) =~= emotes@);
    r
}

/// The first position at or after `from` holding the given emote.
pub open spec fn id_pos(s: Seq<EmoteSetEmote>, id: Id, from: int) -> Option<int>
    decreases s.len() - from,
{
    if from < 0 || from >= s.len() {
        None
    } else if s[from].id == id {
        Some(from)
    } else {
        id_pos(s, id, from + 1)
    }
}

/// Some entry of `s` has alias `a`.
pub open spec fn has_alias(s: Seq<EmoteSetEmote>, a: Seq<char>) -> bool {
    exists|i: int| 0 <= i < s.len() && (#[trigger] s[i]).alias@ == a
}

/// Why renaming an emote of the set is refused, if it is: the emote is not
/// in the set; it is missing, deleted or merged; or the new alias is taken.
pub open spec fn rename_rejection(s: Seq<EmoteSetEmote>, emote_id: Id, emote: Option<EmoteInfo>, name: Option<String>) -> Option<ApiError> {
    if id_pos(s, emote_id, 0) is None {
        Some(not_in_set())
    } else {
        match emote {
            None => Some(emote_not_found()),
            Some(e) => if e.deleted || e.merged {
                Some(emote_not_found())
            } else if has_alias(s, alias_for(name, e)) {
                Some(rename_conflict())
            } else {
                None
            },
        }
    }
}

/// The first position in the set holding the given emote.
pub fn find_emote_entry(emotes: &Vec<EmoteSetEmote>, emote_id: Id) -> (r: Option<usize>)
    ensures
        r matches Some(i) ==> i < emotes@.len(),
        match r {
            Some(i) => id_pos(emotes@, emote_id, 0) == Some(i as int),
            None => id_pos(emotes@, emote_id, 0) is None,
        },
{
    let mut i: usize = 0;
    while i < emotes.len()
        invariant
            i <= emotes@.len(),
            id_pos(emotes@, emote_id, 0) == id_pos(emotes@, emote_id, i as int),
        decreases emotes@.len() - i,
    {
        if emotes[i].id == emote_id {
            return Some(i);
        }
        i = i + 1;
    }
    None
}

/// Checks a rename of an emote in the set; gives the position of the entry
/// that is renamed and the new alias.
pub fn emote_update_check(emotes: &Vec<EmoteSetEmote>, emote_id: Id, emote: &Option<EmoteInfo>, name: Option<String>) -> (r: Result<(usize, String), ApiError>)
    ensures
        match r {
            Err(err) => rename_rejection(emotes@, emote_id, *emote, name) == Some(err),
            Ok((i, alias)) => {
                &&& rename_rejection(emotes@, emote_id, *emote, name) is None
                &&& id_pos(emotes@, emote_id, 0) == Some(i as int)
                &&& i < emotes@.len()
                &&& emote is Some
                &&& alias@ == alias_for(name, emote->0)
            },
        },
{
    let i = match find_emote_entry(emotes, emote_id) {
        Some(i) => i,
        None => {
            return Err(ApiError::not_found(ApiErrorCode::BadRequest, "emote not found in set"));
        },
    };
    let e = match emote {
        None => {
            return Err(ApiError::not_found(ApiErrorCode::BadRequest, "emote not found"));
        },
        Some(e) => e,
    };
    if e.deleted || e.merged {
        return Err(ApiError::not_found(ApiErrorCode::BadRequest, "emote not found"));
    }
    let new_name = match name {
        Some(n) => n,
        None => e.default_name.clone(),
    };
    if let Some(j) = find_alias(emotes, &new_name) {
        proof {
            lemma_alias_pos_found(emotes@, new_name@, 0);
        }
        return Err(ApiError::conflict(ApiErrorCode::BadRequest, "emote name conflict"));
    }
    proof {
        if has_alias(emotes@, new_name@) {
            let k = choose|k: int| 0 <= k < emotes@.len() && (#[trigger] emotes@[k]).alias@ == new_name@;
            lemma_alias_pos_complete(emotes@, new_name@, 0, k);
        }
    }
    Ok((i, new_name))
}

/// Renames the entry at position `i`.
pub fn apply_emote_rename(emotes: &mut Vec<EmoteSetEmote>, i: usize, alias: String)
    requires
        i < old(emotes)@.len(),
    ensures
        final(emotes)@.len() == old(emotes)@.len(),
        forall|j: int| 0 <= j < old(emotes)@.len() && j != i ==> final(emotes)@[j] == old(emotes)@[j],
        final(emotes)@[i as int].alias@ == alias@,
        final(emotes)@[i as int].id == old(emotes)@[i as int].id,
        final(emotes)@[i as int].added_by_id == old(emotes)@[i as int].added_by_id,
        final(emotes)@[i as int].added_at == old(emotes)@[i as int].added_at,
        final(emotes)@[i as int].zero_width == old(emotes)@[i as int].zero_width,
        final(emotes)@[i as int].origin_set_id == old(emotes)@[i as int].origin_set_id,
{
    let old_entry = emotes[i].duplicate();
    let entry = EmoteSetEmote { alias, ..old_entry };
    emotes.set(i, entry);
}

proof fn lemma_alias_pos_found(s: Seq<EmoteSetEmote>, a: Seq<char>, from: int)
    requires
        alias_pos(s, a, from) is Some,
    ensures
        0 <= alias_pos(s, a, from)->0 < s.len(),
        s[alias_pos(s, a, from)->0].alias@ == a,
        has_alias(s, a),
    decreases s.len() - from,
{
    if from >= 0 && from < s.len() && s[from].alias@ != a {
        lemma_alias_pos_found(s, a, from + 1);
    }
}

proof fn lemma_alias_pos_complete(s: Seq<EmoteSetEmote>, a: Seq<char>, from: int, k: int)
    requires
        0 <= from <= k < s.len(),
        s[k].alias@ == a,
    ensures
        alias_pos(s, a, from) is Some,
    decreases k - from,
{
    if s[from].alias@ != a {
        lemma_alias_pos_complete(s, a, from + 1, k);
    }
}

/// No two entries of the set share an alias.
pub open spec fn unique_aliases(s: Seq<EmoteSetEmote>) -> bool {
    forall|i: int, j: int| 0 <= i < j < s.len() ==> (#[trigger] s[i]).alias@ != (#[trigger] s[j]).alias@
}

/// Adding an emote keeps aliases unique: the new entry either replaces the
/// entry holding its alias or, when no entry holds it, is appended.
pub proof fn add_keeps_aliases_unique(s: Seq<EmoteSetEmote>, entry: EmoteSetEmote)
    requires
        unique_aliases(s),
    ensures
        unique_aliases(add_result(s, alias_pos(s, entry.alias@, 0), entry)),
{
    let r = add_result(s, alias_pos(s, entry.alias@, 0), entry);
    match alias_pos(s, entry.alias@, 0) {
        Some(p) => {
            lemma_alias_pos_found(s, entry.alias@, 0);
            assert forall|i: int, j: int| 0 <= i < j < r.len() implies (#[trigger] r[i]).alias@ != (#[trigger] r[j]).alias@ by {
                if i == p {
                    assert(r[i].alias@ == s[p].alias@);
                    assert(s[p].alias@ != s[j].alias@);
                } else if j == p {
                    assert(s[i].alias@ != s[p].alias@);
                } else {
                }
            }
        },
        None => {
            assert forall|i: int, j: int| 0 <= i < j < r.len() implies (#[trigger] r[i]).alias@ != (#[trigger] r[j]).alias@ by {
                if j == s.len() {
                    if s[i].alias@ == entry.alias@ {
                        lemma_alias_pos_complete(s, entry.alias@, 0, i);
                    }
                }
            }
        },
    }
}

/// Renaming an emote keeps aliases unique, since a rename to an alias that
/// is already taken is refused.
pub proof fn rename_keeps_aliases_unique(s: Seq<EmoteSetEmote>, i: int, e: EmoteSetEmote)
    requires
        unique_aliases(s),
        0 <= i < s.len(),
        !has_alias(s, e.alias@),
    ensures
        unique_aliases(s.update(i, e)),
{
    let r = s.update(i, e);
    assert forall|a: int, b: int| 0 <= a < b < r.len() implies (#[trigger] r[a]).alias@ != (#[trigger] r[b]).alias@ by {
        if a == i {
            assert(s[b].alias@ != e.alias@);
        } else if b == i {
            assert(s[a].alias@ != e.alias@);
        }
    }
}

proof fn lemma_without_emote_subseq(s: Seq<EmoteSetEmote>, id: Id)
    ensures
        forall|k: int| 0 <= k < without_emote(s, id).len() ==> exists|m: int| 0 <= m < s.len() && #[trigger] without_emote(s, id)[k] == s[m],
        without_emote(s, id).len() <= s.len(),
    decreases s.len(),
{
    if s.len() > 0 {
        lemma_without_emote_subseq(s.drop_last(), id);
        let w = without_emote(s.drop_last(), id);
        assert forall|k: int| 0 <= k < without_emote(s, id).len() implies exists|m: int| 0 <= m < s.len() && #[trigger] without_emote(s, id)[k] == s[m] by {
            if k < w.len() {
                let m = choose|m: int| 0 <= m < s.drop_last().len() && w[k] == s.drop_last()[m];
                assert(without_emote(s, id)[k] == s[m]);
            } else {
                assert(without_emote(s, id)[k] == s[s.len() - 1]);
            }
        }
    }
}

/// Removing an emote keeps aliases unique.
pub proof fn remove_keeps_aliases_unique(s: Seq<EmoteSetEmote>, id: Id)
    requires
        unique_aliases(s),
    ensures
        unique_aliases(without_emote(s, id)),
    decreases s.len(),
{
    if s.len() > 0 {
        let t = s.drop_last();
        assert(unique_aliases(t));
        remove_keeps_aliases_unique(t, id);
        lemma_without_emote_subseq(t, id);
        let w = without_emote(t, id);
        if s.last().id != id {
            let r = w.push(s.last());
            assert forall|a: int, b: int| 0 <= a < b < r.len() implies (#[trigger] r[a]).alias@ != (#[trigger] r[b]).alias@ by {
                if b == w.len() {
                    let m = choose|m: int| 0 <= m < t.len() && w[a] == t[m];
                    assert(s[m].alias@ != s[s.len() - 1].alias@);
                }
            }
        }
    }
}

/// After a removal no entry of the emote is left in the set.
pub proof fn remove_takes_out_every_entry(s: Seq<EmoteSetEmote>, id: Id)
    ensures
        forall|k: int| 0 <= k < without_emote(s, id).len() ==> (#[trigger] without_emote(s, id)[k]).id != id,
    decreases s.len(),
{
    if s.len() > 0 {
        remove_takes_out_every_entry(s.drop_last(), id);
    }
}

/// An add never takes a set over its capacity: an add the checks accept
/// either replaces an entry or leaves the set with at most `capacity`
/// emotes.
pub proof fn add_respects_capacity(set: EmoteSet, emote: Option<EmoteInfo>, name: Option<String>, loaded: Seq<EmoteInfo>, replace: Option<int>, entry: EmoteSetEmote)
    requires
        add_rejection(set.owner_id, set.capacity, set.kind, set.emotes@, emote, name, loaded) is None,
        set.emotes@.len() < i32::MAX,
        replace matches Some(i) ==> 0 <= i < set.emotes@.len(),
    ensures
        set.capacity matches Some(c) ==> add_result(set.emotes@, replace, entry).len() <= c,
{
}

/// Where an added entry lands: at the position it replaces, else at the end.
pub open spec fn add_slot(s: Seq<EmoteSetEmote>, replace: Option<int>) -> int {
    match replace {
        Some(i) => i,
        None => s.len() as int,
    }
}

/// Whether `x` is the entry adding emote `e` under `alias` makes for
/// `actor` at `now`: added by the actor at that time, zero-width when the
/// emote is zero-width by default, and from no other set.
pub open spec fn is_added_entry(x: EmoteSetEmote, e: EmoteInfo, alias: Seq<char>, actor: Id, now: i64) -> bool {
    &&& x.id == e.id
    &&& x.alias@ == alias
    &&& x.added_by_id == Some(actor)
    &&& x.added_at == now
    &&& x.zero_width == has_flag(e.flags, EMOTE_FLAG_DEFAULT_ZERO_WIDTH)
    &&& x.origin_set_id is None
}

/// What the store reports while an emote is added.
#[derive(Clone, Copy, Debug)]
pub struct AddCounts {
    /// The requester's pending personal-use requests, counted once theirs is
    /// filed; read only when the add files one.
    pub pending_requests: u64,
    /// How many pending personal-use requests the requester may have.
    pub request_limit: Option<i32>,
    /// The set's emotes that are not deleted, counted once the new entry is
    /// written.
    pub live_after_add: u64,
}

/// What a change of a set's emotes writes.
#[derive(Clone, Debug)]
pub struct SetEmotesChange {
    /// The emotes of the set after the change.
    pub emotes: Vec<EmoteSetEmote>,
    /// Whether an added emote first needs a personal-use request.
    pub request_personal_use: bool,
    /// Whether the set is marked as changed since its last search reindex.
    pub changed_since_reindex: bool,
}

/// The refusal of a personal-use request that takes the requester over
/// their limit of pending requests.
pub open spec fn request_limit_error(pending: u64, limit: Option<i32>) -> Option<ApiError> {
    if (pending as i32) > (match limit {
        Some(l) => l,
        None => 0,
    }) {
        Some(api_error(StatusCode::BadRequest, ApiErrorCode::LackingPrivileges, "too many pending moderation requests"))
    } else {
        None
    }
}

/// The refusal of an add after which the set holds more live emotes than
/// its capacity.
pub open spec fn live_capacity_error(live: u64, capacity: Option<i32>) -> Option<ApiError> {
    match capacity {
        Some(c) => if (live as i32) > c {
            Some(api_error(StatusCode::BadRequest, ApiErrorCode::LoadError, "emote set is at capacity"))
        } else {
            None
        },
        None => None,
    }
}

/// The refusal that the store's counts give an add that passed its checks:
/// first the personal-use request limit, when a request is filed, then the
/// live capacity once the entry is written.
pub open spec fn add_count_error(request: bool, counts: AddCounts, capacity: Option<i32>) -> Option<ApiError> {
    if request && request_limit_error(counts.pending_requests, counts.request_limit) is Some {
        request_limit_error(counts.pending_requests, counts.request_limit)
    } else {
        live_capacity_error(counts.live_after_add, capacity)
    }
}

/// What a change of a set's emotes writes: the emotes of the set after the
/// change, whether an added emote first needs a personal-use request, and
/// the mark that the set changed since its last reindex.
/// Adding goes by `emote_add_check`, then refuses by the store's counts
/// (`check_moderation_request_limit` when a request is filed, then
/// `check_capacity_after_add`); removing goes by `emote_remove_check`, and
/// renaming by `emote_update_check`. The added entry is made by
/// `new_set_emote` for `actor` at `now`.
pub fn change_set_emotes(
    action: ListItemAction,
    set: &EmoteSet,
    emote_id: Id,
    emote: &Option<EmoteInfo>,
    name: Option<String>,
    loaded: &Vec<EmoteInfo>,
    actor: Id,
    now: i64,
    counts: AddCounts,
) -> (r: Result<SetEmotesChange, ApiError>)
    ensures
        action == ListItemAction::Add ==> match r {
            Err(e) => match add_rejection(set.owner_id, set.capacity, set.kind, set.emotes@, *emote, name, loaded@) {
                Some(x) => e == x,
                None => add_count_error(
                    set.kind == EmoteSetKind::Personal && !has_flag(emote->0.flags, EMOTE_FLAG_APPROVED_PERSONAL),
                    counts,
                    set.capacity,
                ) == Some(e),
            },
            Ok(c) => {
                let v = c.emotes;
                let alias = alias_for(name, emote->0);
                let p = alias_pos(set.emotes@, alias, 0);
                let k = add_slot(set.emotes@, p);
                &&& add_rejection(set.owner_id, set.capacity, set.kind, set.emotes@, *emote, name, loaded@) is None
                &&& c.request_personal_use == (set.kind == EmoteSetKind::Personal && !has_flag(emote->0.flags, EMOTE_FLAG_APPROVED_PERSONAL))
                &&& add_count_error(c.request_personal_use, counts, set.capacity) is None
                &&& 0 <= k < v@.len()
                &&& v@ == add_result(set.emotes@, p, v@[k])
                &&& is_added_entry(v@[k], emote->0, alias, actor, now)
            },
        },
        action == ListItemAction::Remove ==> match r {
            Err(e) => e == not_in_set() && positions_of(set.emotes@, emote_id).len() == 0,
            Ok(c) => positions_of(set.emotes@, emote_id).len() > 0 && c.emotes@ == without_emote(set.emotes@, emote_id)
                && !c.request_personal_use,
        },
        action == ListItemAction::Update ==> match r {
            Err(e) => rename_rejection(set.emotes@, emote_id, *emote, name) == Some(e),
            Ok(c) => {
                let v = c.emotes;
                &&& !c.request_personal_use
                &&& v@.len() == set.emotes@.len()
                &&& id_pos(set.emotes@, emote_id, 0) matches Some(i) && v@[i].alias@ == alias_for(name, emote->0)
                    && forall|j: int| 0 <= j < v@.len() && j != i ==> v@[j] == set.emotes@[j]
            },
        },
        r matches Ok(c) ==> c.changed_since_reindex,
        r matches Ok(c) ==> (unique_aliases(set.emotes@) ==> unique_aliases(c.emotes@)),
{
    match action {
        ListItemAction::Add => {
            let plan = emote_add_check(set, emote, name, loaded)?;
            if plan.request_personal_use {
                check_moderation_request_limit(counts.pending_requests, counts.request_limit)?;
            }
            check_capacity_after_add(counts.live_after_add, set.capacity)?;
            let e = match emote {
                Some(e) => e,
                None => {
                    assert(false);
                    return Err(ApiError::not_found(ApiErrorCode::BadRequest, "emote not found"));
                },
            };
            let entry = new_set_emote(e, actor, plan.alias.clone(), now);
            let mut emotes: Vec<EmoteSetEmote> = Vec::new();
            let mut i: usize = 0;
            while i < set.emotes.len()
                invariant
                    i <= set.emotes@.len(),
                    emotes@ == set.emotes@.subrange(0, i as int),
                decreases set.emotes@.len() - i,
            {
                emotes.push(set.emotes[i].duplicate());
                i = i + 1;
                assert(emotes@ =~= set.emotes@.subrange(0, i as int));
            }
            assert(set.emotes@.subrange(0, set.emotes@.len() as int) =~= set.emotes@);
            proof {
                lemma_alias_pos_found_or_absent(set.emotes@, plan.alias@);
            }
            let ghost s0 = emotes@;
            let ghost ent = entry;
            apply_emote_add(&mut emotes, plan.replace_index, entry);
            proof {
                let k = match plan.replace_index {
                    Some(i) => i as int,
                    None => s0.len() as int,
                };
                assert(emotes@[k] == ent);
                if unique_aliases(set.emotes@) {
                    assert(ent.alias@ == plan.alias@);
                    add_keeps_aliases_unique(set.emotes@, ent);
                }
            }
            Ok(SetEmotesChange { emotes, request_personal_use: plan.request_personal_use, changed_since_reindex: true })
        },
        ListItemAction::Remove => {
            emote_remove_check(&set.emotes, emote_id)?;
            let v = apply_emote_remove(&set.emotes, emote_id);
            proof {
                if unique_aliases(set.emotes@) {
                    remove_keeps_aliases_unique(set.emotes@, emote_id);
                }
            }
            Ok(SetEmotesChange { emotes: v, request_personal_use: false, changed_since_reindex: true })
        },
        ListItemAction::Update => {
            let (i, alias) = emote_update_check(&set.emotes, emote_id, emote, name)?;
            let mut emotes: Vec<EmoteSetEmote> = Vec::new();
            let mut k: usize = 0;
            while k < set.emotes.len()
                invariant
                    k <= set.emotes@.len(),
                    emotes@ == set.emotes@.subrange(0, k as int),
                decreases set.emotes@.len() - k,
            {
                emotes.push(set.emotes[k].duplicate());
                k = k + 1;
                assert(emotes@ =~= set.emotes@.subrange(0, k as int));
            }
            assert(set.emotes@.subrange(0, set.emotes@.len() as int) =~= set.emotes@);
            apply_emote_rename(&mut emotes, i, alias);
            proof {
                assert(emotes@ =~= set.emotes@.update(i as int, emotes@[i as int]));
                if unique_aliases(set.emotes@) {
                    rename_keeps_aliases_unique(set.emotes@, i as int, emotes@[i as int]);
                }
            }
            Ok(SetEmotesChange { emotes, request_personal_use: false, changed_since_reindex: true })
        },
    }
}

/// Where `alias_pos` points, when it points somewhere, is within the set.
proof fn lemma_alias_pos_found_or_absent(s: Seq<EmoteSetEmote>, a: Seq<char>)
    ensures
        alias_pos(s, a, 0) matches Some(p) ==> 0 <= p < s.len(),
{
    if alias_pos(s, a, 0) is Some {
        lemma_alias_pos_found(s, a, 0);
    }
}

proof fn lemma_alias_pos_first(s: Seq<EmoteSetEmote>, a: Seq<char>, from: int, i: int)
    requires
        0 <= from <= i < s.len(),
        s[i].alias@ == a,
        forall|j: int| from <= j < i ==> (#[trigger] s[j]).alias@ != a,
    ensures
        alias_pos(s, a, from) == Some(i),
    decreases i - from,
{
    if from < i {
        lemma_alias_pos_first(s, a, from + 1, i);
    }
}

proof fn lemma_emote_lookup_first(loaded: Seq<EmoteInfo>, id: Id, from: int, k: int)
    requires
        0 <= from <= k < loaded.len(),
        loaded[k].id == id,
        forall|l: int| from <= l < k ==> (#[trigger] loaded[l]).id != id,
    ensures
        emote_lookup(loaded, id, from) == Some(loaded[k]),
    decreases k - from,
{
    if from < k {
        lemma_emote_lookup_first(loaded, id, from + 1, k);
    }
}

/// An emote cannot take an alias that a live emote holds: when the alias an
/// add asks for (the given name, else the emote's default name) is held in
/// the set by an emote that is loaded and not deleted, an add that passes
/// every earlier check is refused with the conflict error, whether or not a
/// name was given.
pub proof fn live_alias_holder_blocks_add(
    set_owner: Option<Id>,
    capacity: Option<i32>,
    kind: EmoteSetKind,
    emotes: Seq<EmoteSetEmote>,
    e: EmoteInfo,
    name: Option<String>,
    loaded: Seq<EmoteInfo>,
    i: int,
    k: int,
)
    requires
        !(capacity matches Some(c) && (emotes.len() as i32) >= c),
        !e.deleted,
        !e.merged,
        !(has_flag(e.flags, EMOTE_FLAG_PRIVATE) && set_owner != Some(e.owner_id)),
        0 <= i < emotes.len(),
        emotes[i].alias@ == (match name {
            Some(n) => n@,
            None => e.default_name@,
        }),
        forall|j: int| 0 <= j < i ==> (#[trigger] emotes[j]).alias@ != emotes[i].alias@,
        0 <= k < loaded.len(),
        loaded[k].id == emotes[i].id,
        !loaded[k].deleted,
        forall|l: int| 0 <= l < k ==> (#[trigger] loaded[l]).id != emotes[i].id,
    ensures
        add_rejection(set_owner, capacity, kind, emotes, Some(e), name, loaded) == Some(
            api_error(StatusCode::Conflict, ApiErrorCode::BadRequest, "this emote has a conflicting name"),
        ),
{
    lemma_alias_pos_first(emotes, emotes[i].alias@, 0, i);
    lemma_emote_lookup_first(loaded, emotes[i].id, 0, k);
}

} // verus!
