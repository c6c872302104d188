//! Who may manage an emote set, and the checks on creating, changing and
//! deleting emote sets.
use vstd::prelude::*;
use crate::editors::{
    check_editor, editor_outcome, EditorKind, EditorPermission, UserEditor, EDITOR_EMOTE_SET_CREATE, EDITOR_USER_MANAGE_PERSONAL_EMOTE_SET,
};
use crate::emote_sets::{EmoteSet, EmoteSetKind};
use crate::error::{api_error, ApiError, ApiErrorCode, StatusCode};
use crate::ids::Id;
use crate::permissions::{
    permission, Permission, PermissionKind, Permissions, EMOTE_SET_MANAGE, EMOTE_SET_MANAGE_ANY,
    EMOTE_SET_MANAGE_GLOBAL, EMOTE_SET_MANAGE_SPECIAL, USER_USE_PERSONAL_EMOTE_SET,
};

verus! {

/// The next step of an emote-set permission check.
#[derive(Clone, Copy, Debug, PartialEq, Eq, Structural)]
pub enum AccessStep {
    /// The actor may manage the set; the set's target user is the actor.
    Granted,
    /// The owner decides: load the owner (unless it is the actor) and go on.
    CheckOwner(Id),
}

/// What is left to check once the owner is known.
#[derive(Clone, Copy, Debug)]
pub enum OwnerAccess {
    /// The actor may manage the set.
    Granted,
    /// The actor must be an accepted editor of the owner with this permission;
    /// the message is the one a refusal carries.
    NeedsEditor(EditorPermission, &'static str),
}

pub open spec fn emote_set_perm(bits: u64) -> Permission {
    permission(PermissionKind::EmoteSet, bits)
}

/// First step of checking that an actor may manage a set: global and special
/// sets need their own permission; other sets need an owner.
pub open spec fn access_start(kind: EmoteSetKind, owner_id: Option<Id>, actor: Permissions) -> Result<AccessStep, ApiError> {
    match kind {
        EmoteSetKind::Global => if actor.grants(emote_set_perm(EMOTE_SET_MANAGE_GLOBAL)) {
            Ok(AccessStep::Granted)
        } else {
            Err(api_error(StatusCode::Forbidden, ApiErrorCode::LackingPrivileges, "this user does not have permission to manage global emote sets"))
        },
        EmoteSetKind::Special => if actor.grants(emote_set_perm(EMOTE_SET_MANAGE_SPECIAL)) {
            Ok(AccessStep::Granted)
        } else {
            Err(api_error(StatusCode::Forbidden, ApiErrorCode::LackingPrivileges, "this user does not have permission to manage special emote sets"))
        },
        _ => match owner_id {
            None => Err(api_error(StatusCode::NotFound, ApiErrorCode::LoadError, "owner not found")),
            Some(o) => Ok(AccessStep::CheckOwner(o)),
        },
    }
}

/// First step of checking that an actor may manage a set.
pub fn emote_set_access(kind: EmoteSetKind, owner_id: Option<Id>, actor: &Permissions) -> (r: Result<AccessStep, ApiError>)
    ensures
        r == access_start(kind, owner_id, *actor),
{
    match kind {
        EmoteSetKind::Global => {
            if actor.has(Permission { kind: PermissionKind::EmoteSet, bits: EMOTE_SET_MANAGE_GLOBAL }) {
                Ok(AccessStep::Granted)
            } else {
                Err(ApiError::forbidden(ApiErrorCode::LackingPrivileges, "this user does not have permission to manage global emote sets"))
            }
        },
        EmoteSetKind::Special => {
            if actor.has(Permission { kind: PermissionKind::EmoteSet, bits: EMOTE_SET_MANAGE_SPECIAL }) {
                Ok(AccessStep::Granted)
            } else {
                Err(ApiError::forbidden(ApiErrorCode::LackingPrivileges, "this user does not have permission to manage special emote sets"))
            }
        },
        _ => match owner_id {
            None => Err(ApiError::not_found(ApiErrorCode::LoadError, "owner not found")),
            Some(o) => Ok(AccessStep::CheckOwner(o)),
        },
    }
}

pub open spec fn manage_message(kind: EmoteSetKind) -> &'static str {
    if kind == EmoteSetKind::Personal {
        "you do not have permission to manage this user's personal emote set"
    } else {
        "you do not have permission to manage this user's emote sets"
    }
}

/// Second step, with the owner (the target) known: a personal set needs an
/// owner who may use personal sets, and an editor grant for personal sets; the
/// target must be able to manage sets or the actor manage any; an actor who
/// is not the target and cannot manage any set needs an editor grant.
pub open spec fn owner_access(kind: EmoteSetKind, actor_id: Id, actor: Permissions, target_id: Id, target: Permissions, editor_perm: EditorPermission) -> Result<OwnerAccess, ApiError> {
    let personal = kind == EmoteSetKind::Personal;
    let perm = if personal {
        EditorPermission { kind: EditorKind::User, bits: EDITOR_USER_MANAGE_PERSONAL_EMOTE_SET }
    } else {
        editor_perm
    };
    let manage_any = actor.grants(emote_set_perm(EMOTE_SET_MANAGE_ANY));
    if personal && !target.grants(permission(PermissionKind::User, USER_USE_PERSONAL_EMOTE_SET)) {
        Err(api_error(StatusCode::Forbidden, ApiErrorCode::LackingPrivileges, "this user does not have permission to use personal emote sets"))
    } else if !target.grants(emote_set_perm(EMOTE_SET_MANAGE)) && !manage_any {
        Err(api_error(StatusCode::Forbidden, ApiErrorCode::LackingPrivileges, manage_message(kind)))
    } else if target_id != actor_id && !manage_any {
        Ok(OwnerAccess::NeedsEditor(perm, manage_message(kind)))
    } else {
        Ok(OwnerAccess::Granted)
    }
}

/// Second step of checking that an actor may manage a set.
pub fn emote_set_owner_access(
    kind: EmoteSetKind,
    actor_id: Id,
    actor: &Permissions,
    target_id: Id,
    target: &Permissions,
    editor_perm: EditorPermission,
) -> (r: Result<OwnerAccess, ApiError>)
    ensures
        r == owner_access(kind, actor_id, *actor, target_id, *target, editor_perm),
{
    let personal = kind == EmoteSetKind::Personal;
    let mut perm = editor_perm;
    let mut msg = "you do not have permission to manage this user's emote sets";
    if personal {
        if !target.has(Permission { kind: PermissionKind::User, bits: USER_USE_PERSONAL_EMOTE_SET }) {
            return Err(ApiError::forbidden(ApiErrorCode::LackingPrivileges, "this user does not have permission to use personal emote sets"));
        }
        perm = EditorPermission { kind: EditorKind::User, bits: EDITOR_USER_MANAGE_PERSONAL_EMOTE_SET };
        msg = "you do not have permission to manage this user's personal emote set";
    }
    let manage_any = actor.has(Permission { kind: PermissionKind::EmoteSet, bits: EMOTE_SET_MANAGE_ANY });
    if !target.has(Permission { kind: PermissionKind::EmoteSet, bits: EMOTE_SET_MANAGE }) && !manage_any {
        return Err(ApiError::forbidden(ApiErrorCode::LackingPrivileges, msg));
    }
    if target_id != actor_id && !manage_any {
        return Ok(OwnerAccess::NeedsEditor(perm, msg));
    }
    Ok(OwnerAccess::Granted)
}

pub open spec fn owner_not_found() -> ApiError {
    api_error(StatusCode::NotFound, ApiErrorCode::LoadError, "owner not found")
}

pub open spec fn not_an_editor() -> ApiError {
    api_error(StatusCode::Forbidden, ApiErrorCode::LackingPrivileges, "you are not an editor for this user")
}

/// The whole check that an actor may manage a set, given what the store
/// holds: the permissions of the set's owner (`None` when the owner is not
/// found; the actor's own are used when the actor owns the set) and the
/// actor's editor row for the owner. Gives the user the set is managed for:
/// the actor for global and special sets, else the owner.
pub open spec fn set_management(
    kind: EmoteSetKind,
    owner_id: Option<Id>,
    actor_id: Id,
    actor: Permissions,
    owner: Option<Permissions>,
    editor: Option<UserEditor>,
    editor_perm: EditorPermission,
) -> Result<Id, ApiError> {
    match access_start(kind, owner_id, actor) {
        Err(e) => Err(e),
        Ok(AccessStep::Granted) => Ok(actor_id),
        Ok(AccessStep::CheckOwner(o)) => {
            let target = if o == actor_id { Some(actor) } else { owner };
            match target {
                None => Err(owner_not_found()),
                Some(t) => match owner_access(kind, actor_id, actor, o, t, editor_perm) {
                    Err(e) => Err(e),
                    Ok(OwnerAccess::Granted) => Ok(o),
                    Ok(OwnerAccess::NeedsEditor(p, msg)) => match editor_outcome(
                        editor,
                        p,
                        not_an_editor(),
                        api_error(StatusCode::Forbidden, ApiErrorCode::LackingPrivileges, msg),
                    ) {
                        Err(e) => Err(e),
                        Ok(_) => Ok(o),
                    },
                },
            }
        },
    }
}

/// Checks that an actor may manage a set: `emote_set_access`, then, with
/// the owner known, `emote_set_owner_access`, then the actor's editor row
/// where one is needed; a missing row is refused as "you are not an editor
/// for this user". `owner` is the owner's permissions as the store gave
/// them (`None` when not found) and is read only when someone else owns the
/// set; `editor` is read only when an editor grant is needed.
pub fn check_emote_set_management(
    kind: EmoteSetKind,
    owner_id: Option<Id>,
    actor_id: Id,
    actor: &Permissions,
    owner: &Option<Permissions>,
    editor: &Option<UserEditor>,
    editor_perm: EditorPermission,
) -> (r: Result<Id, ApiError>)
    ensures
        r == set_management(kind, owner_id, actor_id, *actor, *owner, *editor, editor_perm),
{
    let o = match emote_set_access(kind, owner_id, actor)? {
        AccessStep::Granted => {
            return Ok(actor_id);
        },
        AccessStep::CheckOwner(o) => o,
    };
    let target: &Permissions = if o == actor_id {
        actor
    } else {
        match owner {
            Some(t) => t,
            None => {
                return Err(ApiError::not_found(ApiErrorCode::LoadError, "owner not found"));
            },
        }
    };
    match emote_set_owner_access(kind, actor_id, actor, o, target, editor_perm)? {
        OwnerAccess::Granted => Ok(o),
        OwnerAccess::NeedsEditor(p, msg) => {
            check_editor(
                editor,
                p,
                ApiError::forbidden(ApiErrorCode::LackingPrivileges, "you are not an editor for this user"),
                ApiError::forbidden(ApiErrorCode::LackingPrivileges, msg),
            )?;
            Ok(o)
        },
    }
}

/// The checks on creating a set for a target user that come before any
/// editor lookup: privileged sets are not supported, and the target must be
/// able to manage sets or the actor manage any. Gives whether an editor grant
/// to create sets is needed.
pub open spec fn create_start(privileged: Option<bool>, actor_id: Id, actor: Permissions, target_id: Id, target: Permissions) -> Result<bool, ApiError> {
    let manage_any = actor.grants(emote_set_perm(EMOTE_SET_MANAGE_ANY));
    if privileged == Some(true) {
        Err(api_error(StatusCode::NotImplemented, ApiErrorCode::BadRequest, "privileged emote sets are not supported"))
    } else if !target.grants(emote_set_perm(EMOTE_SET_MANAGE)) && !manage_any {
        Err(api_error(StatusCode::Forbidden, ApiErrorCode::LackingPrivileges, "this user does not have permission to create emote sets"))
    } else {
        Ok(target_id != actor_id && !manage_any)
    }
}

/// The editor permission creating a set for someone else needs.
pub fn create_editor_permission() -> (p: EditorPermission)
    ensures
        p == (EditorPermission { kind: EditorKind::EmoteSet, bits: EDITOR_EMOTE_SET_CREATE }),
{
    EditorPermission { kind: EditorKind::EmoteSet, bits: EDITOR_EMOTE_SET_CREATE }
}

/// The checks on creating a set that come before any editor lookup.
pub fn create_emote_set_check(privileged: Option<bool>, actor_id: Id, actor: &Permissions, target_id: Id, target: &Permissions) -> (r: Result<bool, ApiError>)
    ensures
        r == create_start(privileged, actor_id, *actor, target_id, *target),
{
    if privileged == Some(true) {
        return Err(ApiError::not_implemented(ApiErrorCode::BadRequest, "privileged emote sets are not supported"));
    }
    let manage_any = actor.has(Permission { kind: PermissionKind::EmoteSet, bits: EMOTE_SET_MANAGE_ANY });
    if !target.has(Permission { kind: PermissionKind::EmoteSet, bits: EMOTE_SET_MANAGE }) && !manage_any {
        return Err(ApiError::forbidden(ApiErrorCode::LackingPrivileges, "this user does not have permission to create emote sets"));
    }
    Ok(target_id != actor_id && !manage_any)
}

/// The value of an optional limit, with a missing or negative one counting as 0.
pub open spec fn limit_value(l: Option<i32>) -> i32 {
    match l {
        Some(v) => if v < 0 { 0 } else { v },
        None => 0,
    }
}

/// The capacity a new set gets: the target's set capacity (0 when missing or
/// negative); refused when that is 0.
pub fn new_set_capacity(capacity: Option<i32>) -> (r: Result<i32, ApiError>)
    ensures
        r == (if limit_value(capacity) == 0 {
            Err(api_error(StatusCode::BadRequest, ApiErrorCode::LackingPrivileges, "maximum emote set capacity is 0, cannot create emote set"))
        } else {
            Ok(limit_value(capacity))
        }),
{
    let c = match capacity {
        Some(v) => if v < 0 { 0 } else { v },
        None => 0,
    };
    if c == 0 {
        Err(ApiError::bad_request(ApiErrorCode::LackingPrivileges, "maximum emote set capacity is 0, cannot create emote set"))
    } else {
        Ok(c)
    }
}

/// Refuses a new set for a user who already owns as many sets as they may.
pub fn check_emote_set_limit(owned: u64, limit: Option<i32>) -> (r: Result<(), ApiError>)
    ensures
        r == (if owned >= limit_value(limit) {
            Err(api_error(StatusCode::BadRequest, ApiErrorCode::LackingPrivileges, "maximum emote set limit reached"))
        } else {
            Ok(())
        }),
{
    let l = match limit {
        Some(v) => if v < 0 { 0 } else { v },
        None => 0,
    };
    if owned >= l as u64 {
        Err(ApiError::bad_request(ApiErrorCode::LackingPrivileges, "maximum emote set limit reached"))
    } else {
        Ok(())
    }
}

/// What a new set is created with.
#[derive(Clone, Debug)]
pub struct CreateEmoteSetInput {
    pub name: String,
    pub privileged: Option<bool>,
}

/// The mutations on emote sets.
#[derive(Clone, Copy, Debug, Default)]
pub struct EmoteSetsMutation;

impl EmoteSetsMutation {
    /// Builds a new set for `owner` once the access checks passed: it takes
    /// the owner's set capacity, which must not be 0, and the owner must own
    /// fewer sets than their limit. The set is normal, named as asked, and
    /// empty.
    pub fn create_emote_set(
        data: &CreateEmoteSetInput,
        id: Id,
        owner: Id,
        capacity: Option<i32>,
        owned: u64,
        limit: Option<i32>,
    ) -> (r: Result<EmoteSet, ApiError>)
        ensures
            limit_value(capacity) == 0 ==> r == Err::<EmoteSet, ApiError>(
                api_error(StatusCode::BadRequest, ApiErrorCode::LackingPrivileges, "maximum emote set capacity is 0, cannot create emote set"),
            ),
            limit_value(capacity) != 0 && owned >= limit_value(limit) ==> r == Err::<EmoteSet, ApiError>(
                api_error(StatusCode::BadRequest, ApiErrorCode::LackingPrivileges, "maximum emote set limit reached"),
            ),
            limit_value(capacity) != 0 && owned < limit_value(limit) ==> (r matches Ok(set) && {
                &&& set.id == id
                &&& set.owner_id == Some(owner)
                &&& set.name@ == data.name@
                &&& set.capacity == Some(limit_value(capacity))
                &&& set.emotes@.len() == 0
                &&& set.kind == EmoteSetKind::Normal
            }),
    {
        let cap = new_set_capacity(capacity)?;
        check_emote_set_limit(owned, limit)?;
        Ok(EmoteSet { id, owner_id: Some(owner), name: data.name.clone(), capacity: Some(cap), emotes: Vec::new(), kind: EmoteSetKind::Normal })
    }
}

/// What an update of a set's name and capacity changes.
#[derive(Clone, Debug)]
pub struct SetUpdate {
    pub name: Option<String>,
    pub capacity: Option<i32>,
}

/// Why an update is refused, if it is: a capacity below the number of
/// emotes in the set or above what the owner may have (their personal set
/// capacity for a personal set), or legacy origins.
pub open spec fn update_rejection(capacity: Option<i32>, len: nat, kind: EmoteSetKind, cap: Option<i32>, personal_cap: Option<i32>, has_origins: bool) -> Option<ApiError> {
    match capacity {
        Some(c) => if c < (len as i32) {
            Some(api_error(StatusCode::BadRequest, ApiErrorCode::BadRequest, "emote set capacity cannot be less than the number of emotes in the set"))
        } else if c > limit_value(if kind == EmoteSetKind::Personal { personal_cap } else { cap }) {
            Some(api_error(StatusCode::BadRequest, ApiErrorCode::LackingPrivileges, "emote set capacity cannot exceed user's capacity"))
        } else if has_origins {
            Some(api_error(StatusCode::NotImplemented, ApiErrorCode::BadRequest, "legacy origins are not supported"))
        } else {
            None
        },
        None => if has_origins {
            Some(api_error(StatusCode::NotImplemented, ApiErrorCode::BadRequest, "legacy origins are not supported"))
        } else {
            None
        },
    }
}

/// Checks an update of a set; a new name equal to the current one is no change.
pub fn emote_set_update_check(
    name: Option<String>,
    capacity: Option<i32>,
    has_origins: bool,
    current_name: &String,
    len: usize,
    kind: EmoteSetKind,
    target: &Permissions,
) -> (r: Result<SetUpdate, ApiError>)
    ensures
        match r {
            Err(err) => update_rejection(capacity, len as nat, kind, target.emote_set_capacity, target.personal_emote_set_capacity, has_origins) == Some(err),
            Ok(u) => {
                &&& update_rejection(capacity, len as nat, kind, target.emote_set_capacity, target.personal_emote_set_capacity, has_origins) is None
                &&& u.capacity == capacity
                &&& match name {
                    Some(n) => if n@ == current_name@ { u.name is None } else { u.name matches Some(m) && m@ == n@ },
                    None => u.name is None,
                }
            },
        },
{
    if let Some(c) = capacity {
        if c < (len as i32) {
            return Err(ApiError::bad_request(ApiErrorCode::BadRequest, "emote set capacity cannot be less than the number of emotes in the set"));
        }
        let max = if kind == EmoteSetKind::Personal { target.personal_emote_set_capacity } else { target.emote_set_capacity };
        let max = match max {
            Some(v) => if v < 0 { 0 } else { v },
            None => 0,
        };
        if c > max {
            return Err(ApiError::bad_request(ApiErrorCode::LackingPrivileges, "emote set capacity cannot exceed user's capacity"));
        }
    }
    if has_origins {
        return Err(ApiError::not_implemented(ApiErrorCode::BadRequest, "legacy origins are not supported"));
    }
    let name = match name {
        Some(n) => if n == *current_name { None } else { Some(n) },
        None => None,
    };
    Ok(SetUpdate { name, capacity })
}

/// Refuses deleting a personal, global or special set.
pub fn check_emote_set_delete(kind: EmoteSetKind) -> (r: Result<(), ApiError>)
    ensures
        r == (if kind == EmoteSetKind::Normal {
            Ok(())
        } else {
            Err(api_error(StatusCode::BadRequest, ApiErrorCode::LackingPrivileges, "cannot delete personal, global, or special emote sets"))
        }),
{
    match kind {
        EmoteSetKind::Normal => Ok(()),
        _ => Err(ApiError::bad_request(ApiErrorCode::LackingPrivileges, "cannot delete personal, global, or special emote sets")),
    }
}

} // verus!
