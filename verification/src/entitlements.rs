//! Entitlement edges, role assignment, and merging one user into another.
use vstd::prelude::*;
use crate::editors::UserEditor;
use crate::error::{api_error, ApiError, ApiErrorCode, StatusCode};
use crate::ids::Id;
use crate::permissions::Permissions;
use crate::types::ListItemAction;
use crate::user_ops::Connection;

verus! {

/// One end of an entitlement edge.
#[derive(Clone, Copy, Debug, PartialEq, Eq, Structural)]
pub enum EdgeKind {
    User(Id),
    Role(Id),
    /// A subscription: product id, then user id.
    Subscription(Id, Id),
    Product(Id),
    Paint(Id),
    Badge(Id),
    EmoteSet(Id),
    GlobalDefault,
}

/// What keeps an edge in place, when something does.
#[derive(Clone, Copy, Debug, PartialEq, Eq, Structural)]
pub enum EdgeManager {
    /// A subscription: product id, then user id.
    Subscription(Id, Id),
    Other(Id),
}

/// An entitlement: `from` is entitled to `to`.
#[derive(Clone, Copy, Debug, PartialEq, Eq, Structural)]
pub struct EntitlementEdge {
    pub from: EdgeKind,
    pub to: EdgeKind,
    pub managed_by: Option<EdgeManager>,
}

/// Refuses assigning or deleting a role that grants more than the actor has.
pub fn check_role_within_actor(actor: &Permissions, role: &Permissions) -> (r: Result<(), ApiError>)
    ensures
        r == (if actor.covers(*role) {
            Ok(())
        } else {
            Err(api_error(StatusCode::Forbidden, ApiErrorCode::LackingPrivileges, "the role has a higher permission level than you"))
        }),
{
    if actor.is_superset_of(role) {
        Ok(())
    } else {
        Err(ApiError::forbidden(ApiErrorCode::LackingPrivileges, "the role has a higher permission level than you"))
    }
}

/// The roles shown after a role is given to a user: the roles they are
/// entitled to, followed by the new role when they did not have it yet.
pub open spec fn roles_after_add(entitled: Seq<Id>, current: Seq<Id>, role_id: Id) -> Seq<Id> {
    if current.contains(role_id) { entitled } else { entitled.push(role_id) }
}

/// The roles shown after a role is given to a user.
pub fn role_add_result(entitled: &Vec<Id>, current: &Vec<Id>, role_id: Id) -> (r: Vec<Id>)
    ensures
        r@ == roles_after_add(entitled@, current@, role_id),
{
    let mut r = entitled.clone();
    if !crate::user_ops::contains_id(current, role_id) {
        r.push(role_id);
    }
    r
}

/// The user holds the role through some edge other than a direct, unmanaged
/// one from the user.
pub open spec fn role_via_other_edge(edges: Seq<EntitlementEdge>, user_id: Id, role_id: Id) -> bool {
    exists|i: int| 0 <= i < edges.len() && (#[trigger] edges[i]).to == EdgeKind::Role(role_id) && (edges[i].from != EdgeKind::User(user_id)
        || edges[i].managed_by is Some)
}

/// Whether the user holds the role through some other edge.
pub fn has_role_via_other_edge(edges: &Vec<EntitlementEdge>, user_id: Id, role_id: Id) -> (r: bool)
    ensures
        r == role_via_other_edge(edges@, user_id, role_id),
{
    let mut i: usize = 0;
    while i < edges.len()
        invariant
            i <= edges@.len(),
            forall|j: int| 0 <= j < i ==> !((#[trigger] edges@[j]).to == EdgeKind::Role(role_id) && (edges@[j].from != EdgeKind::User(user_id)
                || edges@[j].managed_by is Some)),
        decreases edges@.len() - i,
    {
        let e = edges[i];
        if e.to == EdgeKind::Role(role_id) && (e.from != EdgeKind::User(user_id) || e.managed_by.is_some()) {
            return true;
        }
        i = i + 1;
    }
    false
}

/// `s` without the entries equal to `x`.
pub open spec fn without_id(s: Seq<Id>, x: Id) -> Seq<Id>
    decreases s.len(),
{
    if s.len() == 0 {
        s
    } else if s.last() == x {
        without_id(s.drop_last(), x)
    } else {
        without_id(s.drop_last(), x).push(s.last())
    }
}

/// The roles shown after a role is taken from a user: unchanged when they
/// hold it through another edge, else without it.
pub fn role_remove_result(entitled: &Vec<Id>, via_other_edge: bool, role_id: Id) -> (r: Vec<Id>)
    ensures
        r@ == (if via_other_edge { entitled@ } else { without_id(entitled@, role_id) }),
{
    let mut r: Vec<Id> = Vec::new();
    let mut i: usize = 0;
    while i < entitled.len()
        invariant
            i <= entitled@.len(),
            r@ == (if via_other_edge { entitled@.subrange(0, i as int) } else { without_id(entitled@.subrange(0, i as int), role_id) }),
        decreases entitled@.len() - i,
    {
        assert(entitled@.subrange(0, i + 1).drop_last() =~= entitled@.subrange(0, i as int));
        if via_other_edge || entitled[i] != role_id {
            r.push(entitled[i]);
        }
        i = i + 1;
        proof {
            if via_other_edge {
                assert(r@ =~= entitled@.subrange(0, i as int));
            }
        }
    }
    assert(entitled@.subrange(0, entitled@.len() as int) =~= entitled@);
    r
}

pub open spec fn update_role_unsupported() -> ApiError {
    api_error(StatusCode::NotImplemented, ApiErrorCode::BadRequest, "update role is not implemented")
}

/// The roles shown after a role change on a user: added as
/// `roles_after_add` says; removed unless the user holds the role through
/// another edge; updating is not offered.
pub open spec fn roles_after_change(
    action: ListItemAction,
    entitled: Seq<Id>,
    current: Seq<Id>,
    edges: Seq<EntitlementEdge>,
    user_id: Id,
    role_id: Id,
) -> Result<Seq<Id>, ApiError> {
    match action {
        ListItemAction::Add => Ok(roles_after_add(entitled, current, role_id)),
        ListItemAction::Remove => Ok(
            if role_via_other_edge(edges, user_id, role_id) {
                entitled
            } else {
                without_id(entitled, role_id)
            },
        ),
        ListItemAction::Update => Err(update_role_unsupported()),
    }
}

/// The roles shown after a role change on a user. `entitled` are the roles
/// the user was entitled to, `current` the roles they held, and `edges`
/// their entitlement edges, all as loaded before the change.
pub fn role_change(
    action: ListItemAction,
    entitled: &Vec<Id>,
    current: &Vec<Id>,
    edges: &Vec<EntitlementEdge>,
    user_id: Id,
    role_id: Id,
) -> (r: Result<Vec<Id>, ApiError>)
    ensures
        match r {
            Ok(v) => roles_after_change(action, entitled@, current@, edges@, user_id, role_id) == Ok::<Seq<Id>, ApiError>(v@),
            Err(e) => roles_after_change(action, entitled@, current@, edges@, user_id, role_id) == Err::<Seq<Id>, ApiError>(e),
        },
{
    match action {
        ListItemAction::Add => Ok(role_add_result(entitled, current, role_id)),
        ListItemAction::Remove => {
            let via = has_role_via_other_edge(edges, user_id, role_id);
            Ok(role_remove_result(entitled, via, role_id))
        },
        ListItemAction::Update => Err(ApiError::not_implemented(ApiErrorCode::BadRequest, "update role is not implemented")),
    }
}

/// Every entry of `without_id(s, x)` is an entry of `s` other than `x`.
proof fn lemma_without_id(s: Seq<Id>, x: Id)
    ensures
        !without_id(s, x).contains(x),
        forall|y: Id| y != x && s.contains(y) ==> without_id(s, x).contains(y),
    decreases s.len(),
{
    if s.len() > 0 {
        let rest = s.drop_last();
        lemma_without_id(rest, x);
        if s.last() != x {
            assert(without_id(s, x) == without_id(rest, x).push(s.last()));
            assert forall|y: Id| y != x && s.contains(y) implies without_id(s, x).contains(y) by {
                let i = choose|i: int| 0 <= i < s.len() && s[i] == y;
                if i < s.len() - 1 {
                    assert(rest[i] == y);
                    assert(rest.contains(y));
                    assert(without_id(rest, x).contains(y));
                    let k = choose|k: int| 0 <= k < without_id(rest, x).len() && without_id(rest, x)[k] == y;
                    assert(without_id(s, x)[k] == y);
                } else {
                    assert(without_id(s, x)[without_id(rest, x).len() as int] == y);
                }
            }
            if without_id(s, x).contains(x) {
                let k = choose|k: int| 0 <= k < without_id(s, x).len() && without_id(s, x)[k] == x;
                if k < without_id(rest, x).len() {
                    assert(without_id(rest, x)[k] == x);
                }
            }
        } else {
            assert forall|y: Id| y != x && s.contains(y) implies without_id(s, x).contains(y) by {
                let i = choose|i: int| 0 <= i < s.len() && s[i] == y;
                assert(i < s.len() - 1);
                assert(rest[i] == y);
                assert(rest.contains(y));
                assert(without_id(s, x) == without_id(rest, x));
            }
        }
    }
}

/// A role given to a user is among their roles afterwards; a role taken
/// from a user is no longer among them unless another edge gives it; and
/// the other roles they were entitled to stay.
pub proof fn role_change_shows_role(
    entitled: Seq<Id>,
    current: Seq<Id>,
    edges: Seq<EntitlementEdge>,
    user_id: Id,
    role_id: Id,
)
    requires
        forall|x: Id| entitled.contains(x) ==> current.contains(x),
    ensures
        roles_after_change(ListItemAction::Add, entitled, current, edges, user_id, role_id) matches Ok(a) && (a.contains(role_id)
            || current.contains(role_id)) && forall|y: Id| entitled.contains(y) ==> a.contains(y),
        roles_after_change(ListItemAction::Remove, entitled, current, edges, user_id, role_id) matches Ok(b) && (
        !role_via_other_edge(edges, user_id, role_id) ==> !b.contains(role_id)) && forall|y: Id|
            y != role_id && entitled.contains(y) ==> b.contains(y),
{
    let a = roles_after_add(entitled, current, role_id);
    if !current.contains(role_id) {
        assert(a[entitled.len() as int] == role_id);
        assert forall|y: Id| entitled.contains(y) implies a.contains(y) by {
            let i = choose|i: int| 0 <= i < entitled.len() && entitled[i] == y;
            assert(a[i] == y);
        }
    }
    lemma_without_id(entitled, role_id);
}

/// Refuses merging a user into themselves, or into a user already merged.
pub fn check_merge(src_id: Id, target_id: Id) -> (r: Result<(), ApiError>)
    ensures
        r == (if src_id == target_id {
            Err(api_error(StatusCode::BadRequest, ApiErrorCode::BadRequest, "cannot merge user with self"))
        } else {
            Ok(())
        }),
{
    if src_id == target_id {
        Err(ApiError::bad_request(ApiErrorCode::BadRequest, "cannot merge user with self"))
    } else {
        Ok(())
    }
}

/// Refuses merging into a user that is itself merged into another.
pub fn check_merge_target(target_merged_into: Option<Id>) -> (r: Result<(), ApiError>)
    ensures
        r == (if target_merged_into is Some {
            Err(api_error(StatusCode::BadRequest, ApiErrorCode::BadRequest, "target user is already merged"))
        } else {
            Ok(())
        }),
{
    if target_merged_into.is_some() {
        Err(ApiError::bad_request(ApiErrorCode::BadRequest, "target user is already merged"))
    } else {
        Ok(())
    }
}

/// The user fields a merge reads and writes.
#[derive(Clone, Debug)]
pub struct MergeUser {
    pub connections: Vec<Connection>,
    pub stripe_customer_id: Option<String>,
    pub has_bans: bool,
    pub email: Option<String>,
}

pub open spec fn text_of(s: Option<String>) -> Option<Seq<char>> {
    match s {
        Some(t) => Some(t@),
        None => None,
    }
}

/// The target user after a merge: the source's connections are appended to
/// its own; it takes the source's Stripe customer when it has none; it is
/// marked banned when the source was; and it takes the source's email when it
/// has none.
pub open spec fn merged_fields(src: MergeUser, target: MergeUser, r: MergeUser) -> bool {
    &&& r.connections@ == target.connections@ + src.connections@
    &&& text_of(r.stripe_customer_id) == (if src.stripe_customer_id is Some && target.stripe_customer_id is None {
        text_of(src.stripe_customer_id)
    } else {
        text_of(target.stripe_customer_id)
    })
    &&& r.has_bans == (src.has_bans || target.has_bans)
    &&& text_of(r.email) == (if target.email is None { text_of(src.email) } else { text_of(target.email) })
}

fn copy_text(s: &Option<String>) -> (r: Option<String>)
    ensures
        text_of(r) == text_of(*s),
{
    match s {
        Some(t) => Some(t.clone()),
        None => None,
    }
}

/// The target user's fields after a merge.
pub fn merge_user_fields(src: &MergeUser, target: &MergeUser) -> (r: MergeUser)
    ensures
        merged_fields(*src, *target, r),
{
    let mut connections: Vec<Connection> = Vec::new();
    let mut i: usize = 0;
    while i < target.connections.len()
        invariant
            i <= target.connections@.len(),
            connections@ == target.connections@.subrange(0, i as int),
        decreases target.connections@.len() - i,
    {
        connections.push(target.connections[i].duplicate());
        i = i + 1;
        assert(connections@ =~= target.connections@.subrange(0, i as int));
    }
    let mut j: usize = 0;
    while j < src.connections.len()
        invariant
            j <= src.connections@.len(),
            connections@ == target.connections@ + src.connections@.subrange(0, j as int),
        decreases src.connections@.len() - j,
    {
        connections.push(src.connections[j].duplicate());
        j = j + 1;
        assert(connections@ =~= target.connections@ + src.connections@.subrange(0, j as int));
    }
    assert(src.connections@.subrange(0, src.connections@.len() as int) =~= src.connections@);
    assert(target.connections@.subrange(0, target.connections@.len() as int) =~= target.connections@);
    let stripe_customer_id = if src.stripe_customer_id.is_some() && target.stripe_customer_id.is_none() {
        copy_text(&src.stripe_customer_id)
    } else {
        copy_text(&target.stripe_customer_id)
    };
    let email = if target.email.is_none() { copy_text(&src.email) } else { copy_text(&target.email) };
    MergeUser { connections, stripe_customer_id, has_bans: src.has_bans || target.has_bans, email }
}

/// The editors of the source moved to the target: those that do not already
/// edit for the target, now editing for the target.
pub open spec fn moved_editors(src_editors: Seq<UserEditor>, target_editor_ids: Seq<Id>, target_id: Id) -> Seq<UserEditor>
    decreases src_editors.len(),
{
    if src_editors.len() == 0 {
        Seq::empty()
    } else {
        let rest = moved_editors(src_editors.drop_last(), target_editor_ids, target_id);
        let e = src_editors.last();
        if !target_editor_ids.contains(e.editor_id) && e.user_id != target_id {
            rest.push(UserEditor { user_id: target_id, ..e })
        } else {
            rest
        }
    }
}

/// The source's editors that the merge moves to the target. Editors the
/// target already has are skipped; an editor row whose editor is the target
/// itself moves too, making the target its own editor.
pub fn merge_editors(src_editors: &Vec<UserEditor>, target_editor_ids: &Vec<Id>, target_id: Id) -> (r: Vec<UserEditor>)
    ensures
        r@ == moved_editors(src_editors@, target_editor_ids@, target_id),
{
    let mut r: Vec<UserEditor> = Vec::new();
    let mut i: usize = 0;
    while i < src_editors.len()
        invariant
            i <= src_editors@.len(),
            r@ == moved_editors(src_editors@.subrange(0, i as int), target_editor_ids@, target_id),
        decreases src_editors@.len() - i,
    {
        assert(src_editors@.subrange(0, i + 1).drop_last() =~= src_editors@.subrange(0, i as int));
        let e = src_editors[i];
        if !crate::user_ops::contains_id(target_editor_ids, e.editor_id) && e.user_id != target_id {
            r.push(UserEditor { user_id: target_id, ..e });
        }
        i = i + 1;
    }
    assert(src_editors@.subrange(0, src_editors@.len() as int) =~= src_editors@);
    r
}

/// The source's editing rights moved to the target: those for users the
/// target does not already edit for, now held by the target.
pub open spec fn moved_editing(src_editing: Seq<UserEditor>, target_edited: Seq<Id>, target_id: Id) -> Seq<UserEditor>
    decreases src_editing.len(),
{
    if src_editing.len() == 0 {
        Seq::empty()
    } else {
        let rest = moved_editing(src_editing.drop_last(), target_edited, target_id);
        let e = src_editing.last();
        if !target_edited.contains(e.user_id) {
            rest.push(UserEditor { editor_id: target_id, ..e })
        } else {
            rest
        }
    }
}

/// The source's editing rights that the merge moves to the target.
pub fn merge_editing(src_editing: &Vec<UserEditor>, target_edited: &Vec<Id>, target_id: Id) -> (r: Vec<UserEditor>)
    ensures
        r@ == moved_editing(src_editing@, target_edited@, target_id),
{
    let mut r: Vec<UserEditor> = Vec::new();
    let mut i: usize = 0;
    while i < src_editing.len()
        invariant
            i <= src_editing@.len(),
            r@ == moved_editing(src_editing@.subrange(0, i as int), target_edited@, target_id),
        decreases src_editing@.len() - i,
    {
        assert(src_editing@.subrange(0, i + 1).drop_last() =~= src_editing@.subrange(0, i as int));
        let e = src_editing[i];
        if !crate::user_ops::contains_id(target_edited, e.user_id) {
            r.push(UserEditor { editor_id: target_id, ..e });
        }
        i = i + 1;
    }
    assert(src_editing@.subrange(0, src_editing@.len() as int) =~= src_editing@);
    r
}

/// How the merge rewrites a source edge: the user end becomes the target
/// user, and a subscription end the target's subscription.
pub open spec fn moved_edge(e: EntitlementEdge, target_id: Id) -> EntitlementEdge {
    EntitlementEdge {
        from: match e.from {
            EdgeKind::User(_) => EdgeKind::User(target_id),
            EdgeKind::Subscription(p, _) => EdgeKind::Subscription(p, target_id),
            _ => e.from,
        },
        to: match e.to {
            EdgeKind::Subscription(p, _) => EdgeKind::Subscription(p, target_id),
            _ => e.to,
        },
        managed_by: e.managed_by,
    }
}

fn move_edge(e: EntitlementEdge, target_id: Id) -> (r: EntitlementEdge)
    ensures
        r == moved_edge(e, target_id),
{
    let from = match e.from {
        EdgeKind::User(_) => EdgeKind::User(target_id),
        EdgeKind::Subscription(p, _) => EdgeKind::Subscription(p, target_id),
        _ => e.from,
    };
    let to = match e.to {
        EdgeKind::Subscription(p, _) => EdgeKind::Subscription(p, target_id),
        _ => e.to,
    };
    EntitlementEdge { from, to, managed_by: e.managed_by }
}

/// Edges kept by a subscription are not moved.
pub open spec fn subscription_managed(e: EntitlementEdge) -> bool {
    e.managed_by matches Some(EdgeManager::Subscription(_, _))
}

/// The edges the merge gives the target: every source edge not kept by a
/// subscription, rewritten for the target, that the target does not have
/// already; each once.
pub open spec fn edge_to_add(src_edges: Seq<EntitlementEdge>, target_edges: Seq<EntitlementEdge>, target_id: Id, e: EntitlementEdge) -> bool {
    &&& exists|i: int| 0 <= i < src_edges.len() && !subscription_managed(#[trigger] src_edges[i]) && moved_edge(src_edges[i], target_id) == e
    &&& !target_edges.contains(e)
}

fn contains_edge(edges: &Vec<EntitlementEdge>, e: EntitlementEdge) -> (r: bool)
    ensures
        r == edges@.contains(e),
{
    let mut i: usize = 0;
    while i < edges.len()
        invariant
            i <= edges@.len(),
            forall|j: int| 0 <= j < i ==> edges@[j] != e,
        decreases edges@.len() - i,
    {
        if edges[i] == e {
            return true;
        }
        i = i + 1;
    }
    false
}

/// The edges the merge gives the target, without duplicates.
pub fn merge_edges(src_edges: &Vec<EntitlementEdge>, target_edges: &Vec<EntitlementEdge>, target_id: Id) -> (r: Vec<EntitlementEdge>)
    ensures
        forall|e: EntitlementEdge| r@.contains(e) <==> edge_to_add(src_edges@, target_edges@, target_id, e),
        forall|a: int, b: int| 0 <= a < b < r@.len() ==> r@[a] != r@[b],
{
    let mut r: Vec<EntitlementEdge> = Vec::new();
    let mut i: usize = 0;
    while i < src_edges.len()
        invariant
            i <= src_edges@.len(),
            forall|a: int, b: int| 0 <= a < b < r@.len() ==> r@[a] != r@[b],
            forall|e: EntitlementEdge| r@.contains(e) <==> (edge_to_add(src_edges@.subrange(0, i as int), target_edges@, target_id, e)),
        decreases src_edges@.len() - i,
    {
        let e = src_edges[i];
        let ghost before = src_edges@.subrange(0, i as int);
        let ghost after = src_edges@.subrange(0, i + 1);
        let managed = match e.managed_by {
            Some(EdgeManager::Subscription(_, _)) => true,
            _ => false,
        };
        let m = move_edge(e, target_id);
        let ghost r_old = r@;
        let in_target = contains_edge(target_edges, m);
        let in_r = contains_edge(&r, m);
        if !managed && !in_target && !in_r {
            r.push(m);
        }
        proof {
            assert(after[i as int] == e);
            assert(managed == subscription_managed(e));
            assert forall|x: EntitlementEdge| edge_to_add(after, target_edges@, target_id, x) <==> (edge_to_add(before, target_edges@, target_id, x)
                || (x == m && !managed && !target_edges@.contains(m))) by {
                if edge_to_add(after, target_edges@, target_id, x) {
                    let k = choose|k: int| 0 <= k < after.len() && !subscription_managed(#[trigger] after[k]) && moved_edge(after[k], target_id) == x;
                    if k < i {
                        assert(before[k] == after[k]);
                    }
                }
                if edge_to_add(before, target_edges@, target_id, x) {
                    let k = choose|k: int| 0 <= k < before.len() && !subscription_managed(#[trigger] before[k]) && moved_edge(before[k], target_id) == x;
                    assert(after[k] == before[k]);
                }
            }
            if !managed && !in_target && !in_r {
                assert forall|x: EntitlementEdge| r@.contains(x) <==> (r_old.contains(x) || x == m) by {
                    if r@.contains(x) {
                        let k = choose|k: int| 0 <= k < r@.len() && r@[k] == x;
                        if k < r_old.len() {
                            assert(r_old[k] == x);
                        }
                    }
                    if r_old.contains(x) {
                        let k = choose|k: int| 0 <= k < r_old.len() && r_old[k] == x;
                        assert(r@[k] == x);
                    }
                    if x == m {
                        assert(r@[r_old.len() as int] == m);
                    }
                }
            }
            assert forall|x: EntitlementEdge| r@.contains(x) <==> edge_to_add(after, target_edges@, target_id, x) by {
                assert(r_old.contains(x) <==> edge_to_add(before, target_edges@, target_id, x));
            }
        }
        i = i + 1;
    }
    assert(src_edges@.subrange(0, src_edges@.len() as int) =~= src_edges@);
    r
}

/// The editors a merge gives the target are new to it: each edits the
/// target, and none is an editor the target already had.
pub proof fn merged_editors_are_new(src_editors: Seq<UserEditor>, target_editor_ids: Seq<Id>, target_id: Id)
    ensures
        forall|i: int|
            0 <= i < moved_editors(src_editors, target_editor_ids, target_id).len() ==> {
                let e = #[trigger] moved_editors(src_editors, target_editor_ids, target_id)[i];
                e.user_id == target_id && !target_editor_ids.contains(e.editor_id)
            },
    decreases src_editors.len(),
{
    if src_editors.len() > 0 {
        merged_editors_are_new(src_editors.drop_last(), target_editor_ids, target_id);
    }
}

/// The users a merge makes the target an editor of are new to it: the
/// target edits each, and edited none of them before.
pub proof fn merged_editing_is_new(src_editing: Seq<UserEditor>, target_edited: Seq<Id>, target_id: Id)
    ensures
        forall|i: int|
            0 <= i < moved_editing(src_editing, target_edited, target_id).len() ==> {
                let e = #[trigger] moved_editing(src_editing, target_edited, target_id)[i];
                e.editor_id == target_id && !target_edited.contains(e.user_id)
            },
    decreases src_editing.len(),
{
    if src_editing.len() > 0 {
        merged_editing_is_new(src_editing.drop_last(), target_edited, target_id);
    }
}

} // verus!
