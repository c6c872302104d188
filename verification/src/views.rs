//! How users and emote sets are shown by the v3 API: cosmetics in order,
//! roles from the highest, connection capacity, and set listings.
use vstd::prelude::*;
use crate::emote_sets::{EmoteSet, EmoteSetEmote};
use crate::error::{api_error, ApiError, ApiErrorCode, StatusCode};
use crate::ids::Id;
use crate::user_ops::CosmeticKind;

verus! {

broadcast use vstd::seq_lib::group_to_multiset_ensures;

/// Whether a list of ids is in ascending order.
pub open spec fn ascending(s: Seq<Id>) -> bool {
    forall|i: int, j: int| 0 <= i < j < s.len() ==> s[i] <= s[j]
}

/// The ids of a list in ascending order.
pub fn sort_ids(ids: &Vec<Id>) -> (r: Vec<Id>)
    ensures
        ascending(r@),
        r@.to_multiset() == ids@.to_multiset(),
{
    let mut out: Vec<Id> = Vec::new();
    let mut i: usize = 0;
    while i < ids.len()
        invariant
            i <= ids@.len(),
            ascending(out@),
            out@.to_multiset() == ids@.subrange(0, i as int).to_multiset(),
        decreases ids@.len() - i,
    {
        let x = ids[i];
        let mut p: usize = 0;
        while p < out.len() && out[p] <= x
            invariant
                p <= out@.len(),
                forall|k: int| 0 <= k < p ==> out@[k] <= x,
            decreases out@.len() - p,
        {
            p = p + 1;
        }
        let ghost before = out@;
        out.insert(p, x);
        proof {
            assert(out@ == before.insert(p as int, x));
            assert(out@.remove(p as int) =~= before);
            assert(ids@.subrange(0, i + 1) =~= ids@.subrange(0, i as int).push(x));
            assert(out@.to_multiset().remove(x) == before.to_multiset());
            assert(out@.to_multiset() =~= before.to_multiset().insert(x));
            assert forall|a: int, b: int| 0 <= a < b < out@.len() implies out@[a] <= out@[b] by {
                if b < p {
                } else if a < p && b == p {
                } else if a < p {
                    assert(out@[b] == before[b - 1]);
                    assert(before[a] <= before[b - 1]);
                } else if a == p {
                    assert(out@[b] == before[b - 1]);
                    assert(p < before.len());
                    assert(before[p as int] > x);
                    assert(before[p as int] <= before[b - 1]);
                } else {
                    assert(out@[a] == before[a - 1]);
                    assert(out@[b] == before[b - 1]);
                }
            }
        }
        i = i + 1;
    }
    assert(ids@.subrange(0, ids@.len() as int) =~= ids@);
    out
}

/// A cosmetic a user may show, and whether it is the one shown.
#[derive(Clone, Copy, Debug, PartialEq, Eq, Structural)]
pub struct UserCosmetic {
    pub id: Id,
    pub selected: bool,
    pub kind: CosmeticKind,
}

/// Whether `id` is the active paint or badge.
pub open spec fn is_selected(id: Id, active_paint: Option<Id>, active_badge: Option<Id>) -> bool {
    active_paint == Some(id) || active_badge == Some(id)
}

/// The cosmetics of a kind for a list of ids.
pub open spec fn cosmetics_of(ids: Seq<Id>, kind: CosmeticKind, active_paint: Option<Id>, active_badge: Option<Id>) -> Seq<UserCosmetic> {
    ids.map_values(|id: Id| UserCosmetic { id, selected: is_selected(id, active_paint, active_badge), kind })
}

/// The cosmetics of a kind, in order.
fn push_cosmetics(out: &mut Vec<UserCosmetic>, ids: &Vec<Id>, kind: CosmeticKind, active_paint: Option<Id>, active_badge: Option<Id>)
    ensures
        final(out)@ == old(out)@ + cosmetics_of(ids@, kind, active_paint, active_badge),
{
    let ghost start = out@;
    let mut i: usize = 0;
    while i < ids.len()
        invariant
            i <= ids@.len(),
            out@ == start + cosmetics_of(ids@.subrange(0, i as int), kind, active_paint, active_badge),
        decreases ids@.len() - i,
    {
        let id = ids[i];
        let selected = active_paint == Some(id) || active_badge == Some(id);
        out.push(UserCosmetic { id, selected, kind });
        i = i + 1;
        assert(out@ =~= start + cosmetics_of(ids@.subrange(0, i as int), kind, active_paint, active_badge));
    }
    assert(ids@.subrange(0, ids@.len() as int) =~= ids@);
}

/// The queries on emote sets.
#[derive(Clone, Copy, Debug, Default)]
pub struct EmoteSetsQuery;

/// The emote sets that can be asked for by name.
#[derive(Clone, Copy, Debug, PartialEq, Eq, Structural)]
pub enum EmoteSetName {
    Global,
}

/// A user as the v3 API shows it in lists.
#[derive(Clone, Debug)]
pub struct UserPartial {
    pub id: Id,
    pub username: String,
    pub display_name: String,
    pub avatar_url: String,
    pub biography: String,
}

impl UserPartial {
    /// The stand-in for a user that no longer exists.
    pub fn deleted_user() -> (r: UserPartial)
        ensures
            r.id == 0,
            r.username@ == "*DeletedUser"@,
            r.display_name@ == "*DeletedUser"@,
            r.avatar_url@.len() == 0,
            r.biography@.len() == 0,
    {
        UserPartial {
            id: 0,
            username: "*DeletedUser".to_owned(),
            display_name: "*DeletedUser".to_owned(),
            avatar_url: String::new(),
            biography: String::new(),
        }
    }

    /// A user shown by the names of their main connection, the first one,
    /// and by their profile picture, or that connection's avatar.
    pub fn from_db(id: Id, main_connection: Option<(String, String, Option<String>)>, picture_url: Option<String>) -> (r: UserPartial)
        ensures
            r.id == id,
            r.username@ == (match main_connection {
                Some(c) => c.0@,
                None => Seq::<char>::empty(),
            }),
            r.display_name@ == (match main_connection {
                Some(c) => c.1@,
                None => Seq::<char>::empty(),
            }),
            r.avatar_url@ == (match picture_url {
                Some(u) => u@,
                None => match main_connection {
                    Some(c) => match c.2 {
                        Some(a) => a@,
                        None => Seq::<char>::empty(),
                    },
                    None => Seq::<char>::empty(),
                },
            }),
            r.biography@.len() == 0,
    {
        let (username, display_name, connection_avatar) = match main_connection {
            Some(c) => (c.0, c.1, c.2),
            None => (String::new(), String::new(), None),
        };
        let avatar_url = match picture_url {
            Some(u) => u,
            None => match connection_avatar {
                Some(a) => a,
                None => String::new(),
            },
        };
        UserPartial { id, username, display_name, avatar_url, biography: String::new() }
    }
}

impl crate::search::UsersQuery {
    /// The cosmetics a user may show: their paints, then their badges, each
    /// in ascending id order, with the active ones marked.
    pub fn user_cosmetics(paints: &Vec<Id>, badges: &Vec<Id>, active_paint: Option<Id>, active_badge: Option<Id>) -> (r: Vec<UserCosmetic>)
        ensures
            exists|p: Seq<Id>, b: Seq<Id>|
                ascending(p) && p.to_multiset() == paints@.to_multiset() && ascending(b) && b.to_multiset() == badges@.to_multiset()
                    && r@ == #[trigger] cosmetics_of(p, CosmeticKind::Paint, active_paint, active_badge) + #[trigger] cosmetics_of(
                    b,
                    CosmeticKind::Badge,
                    active_paint,
                    active_badge,
                ),
    {
        let p = sort_ids(paints);
        let b = sort_ids(badges);
        let mut out: Vec<UserCosmetic> = Vec::new();
        push_cosmetics(&mut out, &p, CosmeticKind::Paint, active_paint, active_badge);
        push_cosmetics(&mut out, &b, CosmeticKind::Badge, active_paint, active_badge);
        assert(out@ =~= cosmetics_of(p@, CosmeticKind::Paint, active_paint, active_badge) + cosmetics_of(
            b@,
            CosmeticKind::Badge,
            active_paint,
            active_badge,
        ));
        out
    }

    /// The roles of a user, the highest first.
    pub fn user_roles(roles: &Vec<Id>) -> (r: Vec<Id>)
        ensures
            r@ == roles@.reverse(),
    {
        let mut out: Vec<Id> = Vec::new();
        let mut i: usize = roles.len();
        while i > 0
            invariant
                i <= roles@.len(),
                out@ == roles@.subrange(i as int, roles@.len() as int).reverse(),
            decreases i,
        {
            i = i - 1;
            out.push(roles[i]);
            assert(out@ =~= roles@.subrange(i as int, roles@.len() as int).reverse());
        }
        assert(roles@.subrange(0, roles@.len() as int) =~= roles@);
        out
    }

    /// The emote capacity shown on each connection: the user's set
    /// capacity, zero when unset or negative.
    pub fn connection_capacity(emote_set_capacity: Option<i32>) -> (r: i32)
        ensures
            r == (match emote_set_capacity {
                Some(c) => if c > 0 { c } else { 0 },
                None => 0,
            }),
    {
        match emote_set_capacity {
            Some(c) => if c > 0 { c } else { 0 },
            None => 0,
        }
    }
}

pub open spec fn set_not_found() -> ApiError {
    api_error(StatusCode::NotFound, ApiErrorCode::LoadError, "emote set not found")
}

impl EmoteSetsQuery {
    /// The answer to a lookup of one emote set.
    pub fn found_set(set: Option<EmoteSet>) -> (r: Result<EmoteSet, ApiError>)
        ensures
            match set {
                Some(s) => r == Ok::<EmoteSet, ApiError>(s),
                None => r == Err::<EmoteSet, ApiError>(set_not_found()),
            },
    {
        match set {
            Some(s) => Ok(s),
            None => Err(ApiError::not_found(ApiErrorCode::LoadError, "emote set not found")),
        }
    }

    /// The id of a set asked for by name.
    pub fn named_set_id(name: EmoteSetName, global_set_id: Id) -> (r: Id)
        ensures
            r == global_set_id,
    {
        match name {
            EmoteSetName::Global => global_set_id,
        }
    }

    /// The emotes a set shows: the first `limit`, 100000 when unset.
    pub fn shown_emotes(set: &EmoteSet, limit: Option<u32>) -> (r: Vec<EmoteSetEmote>)
        ensures
            ({
                let n = match limit {
                    Some(l) => l as int,
                    None => 100000,
                };
                r@ == set.emotes@.take(if n < set.emotes@.len() { n } else { set.emotes@.len() as int })
            }),
    {
        let n: usize = match limit {
            Some(l) => l as usize,
            None => 100000,
        };
        let mut out: Vec<EmoteSetEmote> = Vec::new();
        let mut i: usize = 0;
        while i < set.emotes.len() && i < n
            invariant
                i <= set.emotes@.len(),
                i <= n,
                out@ == set.emotes@.take(i as int),
            decreases set.emotes@.len() - i,
        {
            out.push(set.emotes[i].duplicate());
            i = i + 1;
            assert(out@ =~= set.emotes@.take(i as int));
        }
        out
    }

    /// The number of emotes in a set, as a 32-bit count.
    pub fn emote_count(set: &EmoteSet) -> (r: u32)
        ensures
            r == set.emotes@.len() as u32,
    {
        set.emotes.len() as u32
    }
}

} // verus!
