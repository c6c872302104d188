//! Editors: users whom another user lets act on their behalf, and the check
//! that an actor may act for a target user.
use vstd::prelude::*;
use crate::error::{ApiError};
use crate::ids::Id;

verus! {

/// The area an editor permission belongs to.
#[derive(Clone, Copy, Debug, PartialEq, Eq, Structural)]
pub enum EditorKind {
    EmoteSet,
    Emote,
    User,
}

/// One editor permission: some bits of one area.
#[derive(Clone, Copy, Debug, PartialEq, Eq, Structural)]
pub struct EditorPermission {
    pub kind: EditorKind,
    pub bits: u64,
}

pub const EDITOR_EMOTE_SET_MANAGE: u64 = 1;
pub const EDITOR_EMOTE_SET_CREATE: u64 = 2;
pub const EDITOR_EMOTE_MANAGE: u64 = 1;
pub const EDITOR_USER_MANAGE_PROFILE: u64 = 1;
pub const EDITOR_USER_MANAGE_EDITORS: u64 = 2;
pub const EDITOR_USER_MANAGE_PERSONAL_EMOTE_SET: u64 = 4;

/// What an editor may do, per area.
#[derive(Clone, Copy, Debug, PartialEq, Eq, Structural)]
pub struct EditorPermissions {
    pub emote_set: u64,
    pub emote: u64,
    pub user: u64,
}

/// Where an editor invitation stands.
#[derive(Clone, Copy, Debug, PartialEq, Eq, Structural)]
pub enum UserEditorState {
    Pending,
    Accepted,
    Rejected,
}

/// `editor_id` may edit for `user_id`.
#[derive(Clone, Copy, Debug)]
pub struct UserEditor {
    pub user_id: Id,
    pub editor_id: Id,
    pub state: UserEditorState,
    pub permissions: EditorPermissions,
    pub added_at: i64,
    pub added_by_id: Id,
}

impl EditorPermissions {
    pub open spec fn area(self, kind: EditorKind) -> u64 {
        match kind {
            EditorKind::EmoteSet => self.emote_set,
            EditorKind::Emote => self.emote,
            EditorKind::User => self.user,
        }
    }

    /// Every bit of `p` is granted.
    pub open spec fn grants(self, p: EditorPermission) -> bool {
        (self.area(p.kind) & p.bits) == p.bits
    }

    /// Whether every bit of `p` is granted.
    pub fn has(&self, p: EditorPermission) -> (r: bool)
        ensures
            r == self.grants(p),
    {
        let a = match p.kind {
            EditorKind::EmoteSet => self.emote_set,
            EditorKind::Emote => self.emote,
            EditorKind::User => self.user,
        };
        (a & p.bits) == p.bits
    }

    /// The permission set that grants nothing.
    pub fn none() -> (p: EditorPermissions)
        ensures
            p == (EditorPermissions { emote_set: 0, emote: 0, user: 0 }),
    {
        EditorPermissions { emote_set: 0, emote: 0, user: 0 }
    }

    /// Whether the permission set grants nothing.
    pub fn is_none(&self) -> (r: bool)
        ensures
            r == (self.emote_set == 0 && self.emote == 0 && self.user == 0),
    {
        self.emote_set == 0 && self.emote == 0 && self.user == 0
    }
}

/// An actor needs an editor grant to act for a target when they are someone
/// else and lack the manage-any permission of the area.
pub open spec fn needs_editor(actor_id: Id, target_id: Id, actor_manage_any: bool) -> bool {
    actor_id != target_id && !actor_manage_any
}

/// Whether an actor needs an editor grant to act for a target.
pub fn requires_editor(actor_id: Id, target_id: Id, actor_manage_any: bool) -> (r: bool)
    ensures
        r == needs_editor(actor_id, target_id, actor_manage_any),
{
    actor_id != target_id && !actor_manage_any
}

/// The outcome of checking an editor record: `missing` when there is none,
/// `lacking` when it is not accepted or lacks the permission.
pub open spec fn editor_outcome(editor: Option<UserEditor>, perm: EditorPermission, missing: ApiError, lacking: ApiError) -> Result<(), ApiError> {
    match editor {
        None => Err(missing),
        Some(e) => if e.state != UserEditorState::Accepted || !e.permissions.grants(perm) {
            Err(lacking)
        } else {
            Ok(())
        },
    }
}

/// Checks the editor record that lets an actor act for another user.
pub fn check_editor(editor: &Option<UserEditor>, perm: EditorPermission, missing: ApiError, lacking: ApiError) -> (r: Result<(), ApiError>)
    ensures
        r == editor_outcome(*editor, perm, missing, lacking),
{
    match editor {
        None => Err(missing),
        Some(e) => {
            if e.state != UserEditorState::Accepted || !e.permissions.has(perm) {
                Err(lacking)
            } else {
                Ok(())
            }
        },
    }
}

/// An editor as the v3 API lists it.
#[derive(Clone, Copy, Debug)]
pub struct EditorListing {
    pub id: Id,
    pub permissions: EditorPermissions,
    pub visible: bool,
    pub added_at: i64,
}

/// Accepted editors are listed, by the editor's id, or by the edited user's
/// id when listing whom a user edits for; others are not listed.
pub open spec fn listing_of(e: UserEditor, editor_of: bool) -> Option<EditorListing> {
    if e.state != UserEditorState::Accepted {
        None
    } else {
        Some(EditorListing {
            id: if editor_of { e.user_id } else { e.editor_id },
            permissions: e.permissions,
            visible: true,
            added_at: e.added_at,
        })
    }
}

impl EditorListing {
    /// Lists an editor record.
    pub fn from_db(e: UserEditor, editor_of: bool) -> (r: Option<EditorListing>)
        ensures
            r == listing_of(e, editor_of),
    {
        if e.state != UserEditorState::Accepted {
            return None;
        }
        Some(EditorListing {
            id: if editor_of { e.user_id } else { e.editor_id },
            permissions: e.permissions,
            visible: true,
            added_at: e.added_at,
        })
    }
}

} // verus!
