//! Changes to a user: connections, editors, cosmetics and roles.
use vstd::prelude::*;
use crate::editors::{EditorPermissions, UserEditor, UserEditorState};
use crate::error::{api_error, ApiError, ApiErrorCode, StatusCode};
use crate::emote_sets::EmoteSetKind;
use crate::ids::Id;
use crate::permissions::{permission, Permission, PermissionKind, Permissions, USER_INVITE_EDITORS, USER_MANAGE_ANY};

verus! {

/// A platform account linked to a user.
#[derive(Clone, Debug)]
pub struct Connection {
    pub platform_id: String,
    pub platform_username: String,
    pub allow_login: bool,
}

impl Connection {
    /// An equal copy of the connection.
    pub fn duplicate(&self) -> (r: Connection)
        ensures
            r == *self,
    {
        Connection {
            platform_id: self.platform_id.clone(),
            platform_username: self.platform_username.clone(),
            allow_login: self.allow_login,
        }
    }
}

/// Refuses an active emote set that is not a normal set.
pub fn check_active_emote_set_kind(kind: EmoteSetKind) -> (r: Result<(), ApiError>)
    ensures
        r == (if kind == EmoteSetKind::Normal {
            Ok(())
        } else {
            Err(api_error(StatusCode::BadRequest, ApiErrorCode::BadRequest, "emote set is not a normal set"))
        }),
{
    if kind == EmoteSetKind::Normal {
        Ok(())
    } else {
        Err(ApiError::bad_request(ApiErrorCode::BadRequest, "emote set is not a normal set"))
    }
}

/// The connections left after unlinking the platform account `platform_id`.
pub open spec fn unlinked(s: Seq<Connection>, platform_id: Seq<char>) -> Seq<Connection>
    decreases s.len(),
{
    if s.len() == 0 {
        s
    } else if s.last().platform_id@ == platform_id {
        unlinked(s.drop_last(), platform_id)
    } else {
        unlinked(s.drop_last(), platform_id).push(s.last())
    }
}

/// Takes the platform account `platform_id` off the connections.
pub fn unlink_connection(connections: &Vec<Connection>, platform_id: &String) -> (r: Vec<Connection>)
    ensures
        r@ == unlinked(connections@, platform_id@),
{
    let mut r: Vec<Connection> = Vec::new();
    let mut i: usize = 0;
    while i < connections.len()
        invariant
            i <= connections@.len(),
            r@ == unlinked(connections@.subrange(0, i as int), platform_id@),
        decreases connections@.len() - i,
    {
        assert(connections@.subrange(0, i + 1).drop_last() =~= connections@.subrange(0, i as int));
        if connections[i].platform_id != *platform_id {
            r.push(connections[i].duplicate());
        }
        i = i + 1;
    }
    assert(connections@.subrange(0, connections@.len() as int) =~= connections@);
    r
}

/// Checks an unlink: the user must keep a connection, and the account must
/// have been linked. Gives the position of the unlinked account among the
/// connections the user had.
pub fn check_unlink(remaining: usize, old_connections: &Vec<Connection>, platform_id: &String) -> (r: Result<usize, ApiError>)
    ensures
        remaining == 0 ==> r == Err::<usize, ApiError>(api_error(StatusCode::BadRequest, ApiErrorCode::BadRequest, "cannot remove last connection")),
        remaining != 0 ==> match r {
            Ok(i) => i < old_connections@.len() && old_connections@[i as int].platform_id@ == platform_id@
                && forall|j: int| 0 <= j < i ==> old_connections@[j].platform_id@ != platform_id@,
            Err(e) => e == api_error(StatusCode::NotFound, ApiErrorCode::LoadError, "connection not found")
                && forall|j: int| 0 <= j < old_connections@.len() ==> old_connections@[j].platform_id@ != platform_id@,
        },
{
    if remaining == 0 {
        return Err(ApiError::bad_request(ApiErrorCode::BadRequest, "cannot remove last connection"));
    }
    let mut i: usize = 0;
    while i < old_connections.len()
        invariant
            remaining != 0,
            i <= old_connections@.len(),
            forall|j: int| 0 <= j < i ==> old_connections@[j].platform_id@ != platform_id@,
        decreases old_connections@.len() - i,
    {
        if old_connections[i].platform_id == *platform_id {
            return Ok(i);
        }
        i = i + 1;
    }
    Err(ApiError::not_found(ApiErrorCode::LoadError, "connection not found"))
}

/// What an editor change does.
#[derive(Clone, Copy, Debug, PartialEq, Eq, Structural)]
pub enum EditorChange {
    Remove,
    Add,
    Edit,
}

/// The checks on changing a user's editors that come before any editor
/// lookup: the actor must be allowed to invite editors. Gives whether the
/// actor needs an editor grant to manage editors: they do when they act for
/// someone else, cannot manage any user, and are not removing themselves.
pub open spec fn editors_start(actor_id: Id, actor: Permissions, target_id: Id, editor_id: Id, perms: EditorPermissions) -> Result<bool, ApiError> {
    if !actor.grants(permission(PermissionKind::User, USER_INVITE_EDITORS)) {
        Err(api_error(StatusCode::Forbidden, ApiErrorCode::LackingPrivileges, "you are not allowed to invite editors"))
    } else {
        Ok(actor_id != target_id && !actor.grants(permission(PermissionKind::User, USER_MANAGE_ANY)) && !(editor_id == actor_id
            && perms.emote_set == 0 && perms.emote == 0 && perms.user == 0))
    }
}

/// The checks on changing a user's editors that come before any editor lookup.
pub fn editors_check(actor_id: Id, actor: &Permissions, target_id: Id, editor_id: Id, perms: &EditorPermissions) -> (r: Result<bool, ApiError>)
    ensures
        r == editors_start(actor_id, *actor, target_id, editor_id, *perms),
{
    if !actor.has(Permission { kind: PermissionKind::User, bits: USER_INVITE_EDITORS }) {
        return Err(ApiError::forbidden(ApiErrorCode::LackingPrivileges, "you are not allowed to invite editors"));
    }
    Ok(actor_id != target_id && !actor.has(Permission { kind: PermissionKind::User, bits: USER_MANAGE_ANY }) && !(editor_id
        == actor_id && perms.is_none()))
}

/// What setting an editor's permissions does: no permissions removes the
/// editor; permissions equal to the current ones are refused; otherwise the
/// editor is added or their permissions edited.
pub fn editor_change(old: Option<EditorPermissions>, new: EditorPermissions) -> (r: Result<EditorChange, ApiError>)
    ensures
        r == (if new.emote_set == 0 && new.emote == 0 && new.user == 0 {
            Ok(EditorChange::Remove)
        } else if old == Some(new) {
            Err(api_error(StatusCode::BadRequest, ApiErrorCode::BadRequest, "permissions are the same"))
        } else if old is None {
            Ok(EditorChange::Add)
        } else {
            Ok(EditorChange::Edit)
        }),
{
    if new.is_none() {
        return Ok(EditorChange::Remove);
    }
    match old {
        Some(o) => {
            if o == new {
                Err(ApiError::bad_request(ApiErrorCode::BadRequest, "permissions are the same"))
            } else {
                Ok(EditorChange::Edit)
            }
        },
        None => Ok(EditorChange::Add),
    }
}

/// The editor row an added or edited editor has afterwards: an existing
/// row with the new permissions, or a new pending row that `actor_id` added
/// at `now`.
pub fn editor_row(old: Option<UserEditor>, user_id: Id, editor_id: Id, permissions: EditorPermissions, actor_id: Id, now: i64) -> (r: UserEditor)
    ensures
        r == (match old {
            Some(o) => UserEditor { permissions, ..o },
            None => UserEditor {
                user_id,
                editor_id,
                state: UserEditorState::Pending,
                permissions,
                added_at: now,
                added_by_id: actor_id,
            },
        }),
{
    match old {
        Some(o) => UserEditor { permissions, ..o },
        None => UserEditor {
            user_id,
            editor_id,
            state: UserEditorState::Pending,
            permissions,
            added_at: now,
            added_by_id: actor_id,
        },
    }
}

/// The kinds of cosmetic a user selects.
#[derive(Clone, Copy, Debug, PartialEq, Eq, Structural)]
pub enum CosmeticKind {
    Paint,
    Badge,
    Avatar,
}

/// What selecting a cosmetic does.
#[derive(Clone, Copy, Debug, PartialEq, Eq, Structural)]
pub enum CosmeticChange {
    /// The cosmetic is already the active one.
    Unchanged,
    /// The active cosmetic becomes this one, or none.
    Select(Option<Id>),
}

/// The selection a request names: the nil id means none.
pub open spec fn selection(id: Id) -> Option<Id> {
    if id == 0 { None } else { Some(id) }
}

/// What a cosmetic update does: an update that selects nothing changes
/// nothing; else paints and badges must be ones the user is entitled to,
/// selecting the active one changes nothing, and avatars are not changed
/// this way.
pub open spec fn cosmetic_outcome(selected: bool, kind: CosmeticKind, id: Id, entitled: Seq<Id>, active: Option<Id>) -> Result<CosmeticChange, ApiError> {
    if !selected {
        Ok(CosmeticChange::Unchanged)
    } else {
    match kind {
        CosmeticKind::Avatar => Err(api_error(StatusCode::NotImplemented, ApiErrorCode::BadRequest, "avatar cosmetics mutations are not supported via this endpoint, use the upload endpoint instead")),
        _ => if id != 0 && !entitled.contains(id) {
            Err(api_error(StatusCode::Forbidden, ApiErrorCode::LoadError, if kind == CosmeticKind::Paint {
                "you do not have permission to use this paint"
            } else {
                "you do not have permission to use this badge"
            }))
        } else if active == selection(id) {
            Ok(CosmeticChange::Unchanged)
        } else {
            Ok(CosmeticChange::Select(selection(id)))
        },
    }
    }
}

/// Whether `id` is in the list.
pub fn contains_id(ids: &Vec<Id>, id: Id) -> (r: bool)
    ensures
        r == ids@.contains(id),
{
    let mut i: usize = 0;
    while i < ids.len()
        invariant
            i <= ids@.len(),
            forall|j: int| 0 <= j < i ==> ids@[j] != id,
        decreases ids@.len() - i,
    {
        if ids[i] == id {
            return true;
        }
        i = i + 1;
    }
    false
}

/// What selecting a cosmetic does.
/// `selected` is whether the update selects the cosmetic at all; when it
/// does not, the update is answered with success at once, before any
/// editor check.
pub fn cosmetic_selection(selected: bool, kind: CosmeticKind, id: Id, entitled: &Vec<Id>, active: Option<Id>) -> (r: Result<CosmeticChange, ApiError>)
    ensures
        r == cosmetic_outcome(selected, kind, id, entitled@, active),
{
    if !selected {
        return Ok(CosmeticChange::Unchanged);
    }
    if kind == CosmeticKind::Avatar {
        return Err(ApiError::not_implemented(ApiErrorCode::BadRequest, "avatar cosmetics mutations are not supported via this endpoint, use the upload endpoint instead"));
    }
    let sel = if id == 0 { None } else { Some(id) };
    if id != 0 && !contains_id(entitled, id) {
        if kind == CosmeticKind::Paint {
            return Err(ApiError::forbidden(ApiErrorCode::LoadError, "you do not have permission to use this paint"));
        } else {
            return Err(ApiError::forbidden(ApiErrorCode::LoadError, "you do not have permission to use this badge"));
        }
    }
    if active == sel {
        Ok(CosmeticChange::Unchanged)
    } else {
        Ok(CosmeticChange::Select(sel))
    }
}

} // verus!
