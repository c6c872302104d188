//! Emotes: their flags, and how an update request changes them.
use vstd::prelude::*;
use crate::error::{api_error, ApiError, ApiErrorCode, StatusCode};
use crate::ids::Id;
use crate::permissions::{permission, Permission, PermissionKind, Permissions, EMOTE_DELETE, EMOTE_EDIT};

verus! {

pub const EMOTE_FLAG_PRIVATE: u32 = 1;
pub const EMOTE_FLAG_DEFAULT_ZERO_WIDTH: u32 = 2;
pub const EMOTE_FLAG_PUBLIC_LISTED: u32 = 4;
pub const EMOTE_FLAG_APPROVED_PERSONAL: u32 = 8;
pub const EMOTE_FLAG_DENIED_PERSONAL: u32 = 16;
pub const EMOTE_FLAG_ANIMATED: u32 = 32;
pub const EMOTE_FLAG_NSFW: u32 = 64;

/// Whether `flags` holds every bit of `bit`.
pub open spec fn has_flag(flags: u32, bit: u32) -> bool {
    (flags & bit) == bit
}

/// Whether `flags` holds every bit of `bit`.
pub fn contains_flag(flags: u32, bit: u32) -> (r: bool)
    ensures
        r == has_flag(flags, bit),
{
    (flags & bit) == bit
}

/// What the emote-set logic reads of a stored emote.
#[derive(Clone, Debug)]
pub struct EmoteInfo {
    pub id: Id,
    pub owner_id: Id,
    pub default_name: String,
    pub deleted: bool,
    pub merged: bool,
    pub flags: u32,
}

/// `f` with `bit` set when `on`, cleared otherwise.
pub open spec fn put_bit(f: u32, bit: u32, on: bool) -> u32 {
    if on { f | bit } else { f & !bit }
}

fn put(f: u32, bit: u32, on: bool) -> (r: u32)
    ensures
        r == put_bit(f, bit, on),
{
    if on { f | bit } else { f & !bit }
}

/// The old-model flags a client sends when updating an emote.
#[derive(Clone, Copy, Debug, PartialEq, Eq, Structural)]
pub struct FlagsInput {
    pub private: bool,
    pub zero_width: bool,
}

/// The flags an emote update leaves: the client's private flag sets private
/// and clears listed (or the reverse), its zero-width flag sets or clears
/// zero-width by default; an actor who may manage any emote may also set
/// listing (listed clears private, unlisted sets it) and personal use
/// (approved clears denied, or the reverse). The private and zero-width
/// flags need no more than the edit permission, so any editor of the emote
/// may change whether it is private, and so whether it is listed.
pub open spec fn updated_flags(old: u32, input: Option<FlagsInput>, manage_any: bool, listed: Option<bool>, personal_use: Option<bool>) -> u32 {
    let f1 = match input {
        Some(i) => {
            let a = put_bit(put_bit(old, EMOTE_FLAG_PRIVATE, i.private), EMOTE_FLAG_PUBLIC_LISTED, !i.private);
            put_bit(a, EMOTE_FLAG_DEFAULT_ZERO_WIDTH, i.zero_width)
        },
        None => old,
    };
    if manage_any {
        let f2 = match listed {
            Some(l) => put_bit(put_bit(f1, EMOTE_FLAG_PUBLIC_LISTED, l), EMOTE_FLAG_PRIVATE, !l),
            None => f1,
        };
        match personal_use {
            Some(p) => put_bit(put_bit(f2, EMOTE_FLAG_APPROVED_PERSONAL, p), EMOTE_FLAG_DENIED_PERSONAL, !p),
            None => f2,
        }
    } else {
        f1
    }
}

/// The flags an emote update leaves.
pub fn update_flags(old: u32, input: Option<FlagsInput>, manage_any: bool, listed: Option<bool>, personal_use: Option<bool>) -> (r: u32)
    ensures
        r == updated_flags(old, input, manage_any, listed, personal_use),
{
    let mut flags = old;
    if let Some(i) = input {
        flags = put(flags, EMOTE_FLAG_PRIVATE, i.private);
        flags = put(flags, EMOTE_FLAG_PUBLIC_LISTED, !i.private);
        flags = put(flags, EMOTE_FLAG_DEFAULT_ZERO_WIDTH, i.zero_width);
    }
    if manage_any {
        if let Some(l) = listed {
            flags = put(flags, EMOTE_FLAG_PUBLIC_LISTED, l);
            flags = put(flags, EMOTE_FLAG_PRIVATE, !l);
        }
        if let Some(p) = personal_use {
            flags = put(flags, EMOTE_FLAG_APPROVED_PERSONAL, p);
            flags = put(flags, EMOTE_FLAG_DENIED_PERSONAL, !p);
        }
    }
    flags
}

/// The bits an emote update may touch.
pub open spec fn update_mask() -> u32 {
    EMOTE_FLAG_PRIVATE | EMOTE_FLAG_PUBLIC_LISTED | EMOTE_FLAG_DEFAULT_ZERO_WIDTH | EMOTE_FLAG_APPROVED_PERSONAL
        | EMOTE_FLAG_DENIED_PERSONAL
}

proof fn lemma_put_keeps_others(f: u32, bit: u32, on: bool)
    requires
        bit == EMOTE_FLAG_PRIVATE || bit == EMOTE_FLAG_PUBLIC_LISTED || bit == EMOTE_FLAG_DEFAULT_ZERO_WIDTH || bit
            == EMOTE_FLAG_APPROVED_PERSONAL || bit == EMOTE_FLAG_DENIED_PERSONAL,
    ensures
        (put_bit(f, bit, on) & !update_mask()) == (f & !update_mask()),
{
    let m = update_mask();
    assert(m == 31u32) by (bit_vector)
        requires
            m == update_mask(),
    ;
    if on {
        assert(((f | bit) & !31u32) == (f & !31u32)) by (bit_vector)
            requires
                bit == 1u32 || bit == 2u32 || bit == 4u32 || bit == 8u32 || bit == 16u32,
        ;
    } else {
        assert(((f & !bit) & !31u32) == (f & !31u32)) by (bit_vector)
            requires
                bit == 1u32 || bit == 2u32 || bit == 4u32 || bit == 8u32 || bit == 16u32,
        ;
    }
}

/// An emote update touches only the private, listed, zero-width and
/// personal-use flags; every other flag (animated, NSFW, ...) is kept.
pub proof fn update_keeps_other_flags(old: u32, input: Option<FlagsInput>, manage_any: bool, listed: Option<bool>, personal_use: Option<bool>)
    ensures
        (updated_flags(old, input, manage_any, listed, personal_use) & !update_mask()) == (old & !update_mask()),
{
    reveal_with_fuel(put_bit, 1);
    match input {
        Some(i) => {
            lemma_put_keeps_others(old, EMOTE_FLAG_PRIVATE, i.private);
            let a0 = put_bit(old, EMOTE_FLAG_PRIVATE, i.private);
            lemma_put_keeps_others(a0, EMOTE_FLAG_PUBLIC_LISTED, !i.private);
            let a = put_bit(a0, EMOTE_FLAG_PUBLIC_LISTED, !i.private);
            lemma_put_keeps_others(a, EMOTE_FLAG_DEFAULT_ZERO_WIDTH, i.zero_width);
        },
        None => {},
    }
    let f1 = match input {
        Some(i) => put_bit(put_bit(put_bit(old, EMOTE_FLAG_PRIVATE, i.private), EMOTE_FLAG_PUBLIC_LISTED, !i.private), EMOTE_FLAG_DEFAULT_ZERO_WIDTH, i.zero_width),
        None => old,
    };
    if manage_any {
        match listed {
            Some(l) => {
                lemma_put_keeps_others(f1, EMOTE_FLAG_PUBLIC_LISTED, l);
                lemma_put_keeps_others(put_bit(f1, EMOTE_FLAG_PUBLIC_LISTED, l), EMOTE_FLAG_PRIVATE, !l);
            },
            None => {},
        }
        let f2 = match listed {
            Some(l) => put_bit(put_bit(f1, EMOTE_FLAG_PUBLIC_LISTED, l), EMOTE_FLAG_PRIVATE, !l),
            None => f1,
        };
        match personal_use {
            Some(p) => {
                lemma_put_keeps_others(f2, EMOTE_FLAG_APPROVED_PERSONAL, p);
                lemma_put_keeps_others(put_bit(f2, EMOTE_FLAG_APPROVED_PERSONAL, p), EMOTE_FLAG_DENIED_PERSONAL, !p);
            },
            None => {},
        }
    }
}

/// The permission an emote update needs: deleting needs the delete
/// permission, anything else the edit permission.
pub fn check_emote_update_permission(deleted: Option<bool>, actor: &Permissions) -> (r: Result<(), ApiError>)
    ensures
        r == (if (deleted == Some(true) && !actor.grants(permission(PermissionKind::Emote, EMOTE_DELETE))) || (deleted != Some(true)
            && !actor.grants(permission(PermissionKind::Emote, EMOTE_EDIT))) {
            Err(api_error(StatusCode::Forbidden, ApiErrorCode::Unknown, "forbidden"))
        } else {
            Ok(())
        }),
{
    if deleted == Some(true) {
        if !actor.has(Permission { kind: PermissionKind::Emote, bits: EMOTE_DELETE }) {
            return Err(ApiError::forbidden(ApiErrorCode::Unknown, "forbidden"));
        }
    } else {
        if !actor.has(Permission { kind: PermissionKind::Emote, bits: EMOTE_EDIT }) {
            return Err(ApiError::forbidden(ApiErrorCode::Unknown, "forbidden"));
        }
    }
    Ok(())
}

/// What an emote update writes besides tags: the new default name (the
/// name, else the version name), the new owner (only for an actor who may
/// manage any emote), and the new flags when they differ from the old.
pub struct EmoteChange {
    pub default_name: Option<String>,
    pub owner_id: Option<Id>,
    pub flags: Option<u32>,
}

/// What an emote update writes.
pub fn emote_change(
    old_flags: u32,
    name: Option<String>,
    version_name: Option<String>,
    input: Option<FlagsInput>,
    manage_any: bool,
    listed: Option<bool>,
    personal_use: Option<bool>,
    owner_id: Option<Id>,
) -> (c: EmoteChange)
    ensures
        c.default_name == (if name is Some { name } else { version_name }),
        c.owner_id == (if manage_any { owner_id } else { None }),
        c.flags == (if updated_flags(old_flags, input, manage_any, listed, personal_use) != old_flags {
            Some(updated_flags(old_flags, input, manage_any, listed, personal_use))
        } else {
            None
        }),
{
    let default_name = match name {
        Some(n) => Some(n),
        None => version_name,
    };
    let flags = update_flags(old_flags, input, manage_any, listed, personal_use);
    EmoteChange {
        default_name,
        owner_id: if manage_any { owner_id } else { None },
        flags: if flags != old_flags { Some(flags) } else { None },
    }
}

} // verus!
