//! Bans: what a ban's effects take away, how a stored ban is shown again, and
//! who may ban whom.
use vstd::prelude::*;
use crate::error::{api_error, ApiError, ApiErrorCode, StatusCode};
use crate::ids::{id_time_ms, id_timestamp_ms, Id};
use crate::permissions::{
    permission, AllowDeny, Permission, PermissionKind, Permissions, EMOTE_ALL, EMOTE_SET_ALL, FLAG_HIDDEN, USER_ALL,
    USER_LOGIN,
};

verus! {

/// The effects a moderator picks when banning a user.
#[derive(Clone, Copy, Debug, PartialEq, Eq, Structural)]
pub struct BanEffect {
    pub no_permissions: bool,
    pub no_auth: bool,
    pub no_ownership: bool,
    pub memory_hole: bool,
    pub blocked_ip: bool,
}

/// `p` with `bits` added to what area `kind` allows.
pub open spec fn with_allowed(p: Permissions, kind: PermissionKind, bits: u64) -> Permissions {
    p.with_group(kind, AllowDeny { allow: p.group(kind).allow | bits, deny: p.group(kind).deny })
}

/// `p` with `bits` added to what area `kind` denies.
pub open spec fn with_denied(p: Permissions, kind: PermissionKind, bits: u64) -> Permissions {
    p.with_group(kind, AllowDeny { allow: p.group(kind).allow, deny: p.group(kind).deny | bits })
}

/// The permissions a ban with the given effects carries: a memory hole hides
/// the user; losing authentication or a blocked IP denies login; losing
/// permissions denies every emote and emote set permission and every user
/// permission but login.
pub open spec fn ban_permissions(e: BanEffect) -> Permissions {
    let p0 = Permissions::empty();
    let p1 = if e.memory_hole { with_allowed(p0, PermissionKind::Flag, FLAG_HIDDEN) } else { p0 };
    let p2 = if e.no_auth || e.blocked_ip { with_denied(p1, PermissionKind::User, USER_LOGIN) } else { p1 };
    if e.no_permissions {
        let p3 = with_denied(p2, PermissionKind::Emote, EMOTE_ALL);
        let p4 = with_denied(p3, PermissionKind::EmoteSet, EMOTE_SET_ALL);
        with_denied(p4, PermissionKind::User, USER_ALL & !USER_LOGIN)
    } else {
        p2
    }
}

/// The permissions a ban with the given effects carries.
pub fn ban_effect_to_permissions(effects: BanEffect) -> (perms: Permissions)
    ensures
        perms == ban_permissions(effects),
{
    let mut perms = Permissions::new();
    if effects.memory_hole {
        perms.allow(Permission { kind: PermissionKind::Flag, bits: FLAG_HIDDEN });
    }
    if effects.no_auth || effects.blocked_ip {
        perms.deny(Permission { kind: PermissionKind::User, bits: USER_LOGIN });
    }
    if effects.no_permissions {
        perms.deny(Permission { kind: PermissionKind::Emote, bits: EMOTE_ALL });
        perms.deny(Permission { kind: PermissionKind::EmoteSet, bits: EMOTE_SET_ALL });
        perms.deny(Permission { kind: PermissionKind::User, bits: USER_ALL & !USER_LOGIN });
    }
    perms
}

/// A ban as it is stored.
#[derive(Clone, Debug)]
pub struct UserBan {
    pub id: Id,
    pub user_id: Id,
    pub expires_at: Option<i64>,
    pub created_by_id: Id,
    pub reason: String,
    pub permissions: Permissions,
}

/// A ban as the v3 API shows it; times are milliseconds since the epoch.
#[derive(Clone, Debug)]
pub struct Ban {
    pub id: Id,
    pub reason: String,
    pub effects: BanEffect,
    pub expire_at: i64,
    pub created_at: i64,
    pub victim_id: Id,
    pub actor_id: Id,
}

/// The effects read back from a ban's permissions: hidden means memory hole,
/// a granted login means no-auth, and granting all of the emote, emote set and
/// non-login user permissions means no-permissions.
pub open spec fn ban_effects_of(p: Permissions) -> BanEffect {
    BanEffect {
        no_permissions: p.grants(permission(PermissionKind::Emote, EMOTE_ALL)) && p.grants(
            permission(PermissionKind::EmoteSet, EMOTE_SET_ALL),
        ) && p.grants(permission(PermissionKind::User, USER_ALL & !USER_LOGIN)),
        no_auth: p.grants(permission(PermissionKind::User, USER_LOGIN)),
        no_ownership: false,
        memory_hole: p.grants(permission(PermissionKind::Flag, FLAG_HIDDEN)),
        blocked_ip: false,
    }
}

impl Ban {
    /// Shows a stored ban; `user_id` is the banned user.
    pub fn from_db(user_id: Id, ban: UserBan) -> (b: Ban)
        ensures
            b.id == ban.id,
            b.reason@ == ban.reason@,
            b.effects == ban_effects_of(ban.permissions),
            b.expire_at == (match ban.expires_at {
                Some(t) => t,
                None => 0,
            }),
            b.created_at == id_time_ms(ban.id),
            b.victim_id == user_id,
            b.actor_id == ban.created_by_id,
    {
        let all = vec![
            Permission { kind: PermissionKind::Emote, bits: EMOTE_ALL },
            Permission { kind: PermissionKind::EmoteSet, bits: EMOTE_SET_ALL },
            Permission { kind: PermissionKind::User, bits: USER_ALL & !USER_LOGIN },
        ];
        let no_permissions = ban.permissions.has_all(&all);
        proof {
            assert(no_permissions == (ban.permissions.grants(all@[0]) && ban.permissions.grants(all@[1])
                && ban.permissions.grants(all@[2])));
        }
        let effects = BanEffect {
            no_permissions,
            no_auth: ban.permissions.has(Permission { kind: PermissionKind::User, bits: USER_LOGIN }),
            no_ownership: false,
            memory_hole: ban.permissions.has(Permission { kind: PermissionKind::Flag, bits: FLAG_HIDDEN }),
            blocked_ip: false,
        };
        let created_at = id_timestamp_ms(ban.id) as i64;
        let expire_at = match ban.expires_at {
            Some(t) => t,
            None => 0,
        };
        Ban {
            id: ban.id,
            reason: ban.reason,
            effects,
            expire_at,
            created_at,
            victim_id: user_id,
            actor_id: ban.created_by_id,
        }
    }
}

/// Whether an actor may ban a victim: not themselves, and only users of a
/// lower role rank unless the actor is a super admin.
pub open spec fn ban_check(actor_id: Id, victim_id: Id, actor_rank: i32, victim_rank: i32, actor_super_admin: bool) -> Result<(), ApiError> {
    if actor_id == victim_id {
        Err(api_error(StatusCode::BadRequest, ApiErrorCode::BadRequest, "cannot ban yourself"))
    } else if actor_rank <= victim_rank && !actor_super_admin {
        Err(api_error(StatusCode::Forbidden, ApiErrorCode::LackingPrivileges, "can only ban users with lower roles"))
    } else {
        Ok(())
    }
}

/// Whether an actor may ban a victim.
pub fn check_can_ban(actor_id: Id, victim_id: Id, actor_rank: i32, victim_rank: i32, actor_super_admin: bool) -> (r: Result<(), ApiError>)
    ensures
        r == ban_check(actor_id, victim_id, actor_rank, victim_rank, actor_super_admin),
{
    if actor_id == victim_id {
        Err(ApiError::bad_request(ApiErrorCode::BadRequest, "cannot ban yourself"))
    } else if actor_rank <= victim_rank && !actor_super_admin {
        Err(ApiError::forbidden(ApiErrorCode::LackingPrivileges, "can only ban users with lower roles"))
    } else {
        Ok(())
    }
}

/// The ban that banning `victim_id` with the given effects stores.
pub fn new_user_ban(id: Id, victim_id: Id, actor_id: Id, reason: String, effects: BanEffect, expires_at: Option<i64>) -> (ban: UserBan)
    ensures
        ban.id == id,
        ban.user_id == victim_id,
        ban.created_by_id == actor_id,
        ban.reason@ == reason@,
        ban.expires_at == expires_at,
        ban.permissions == ban_permissions(effects),
{
    UserBan { id, user_id: victim_id, expires_at, created_by_id: actor_id, reason, permissions: ban_effect_to_permissions(effects) }
}

/// The mutations on bans.
#[derive(Clone, Copy, Debug, Default)]
pub struct BansMutation;

impl BansMutation {
    /// Bans a user once the checks pass: the actor may not ban themselves,
    /// and may only ban users of a lower role rank unless a super admin.
    /// Gives the ban to store.
    pub fn create_ban(
        actor_id: Id,
        victim_id: Id,
        actor_rank: i32,
        victim_rank: i32,
        actor_super_admin: bool,
        ban_id: Id,
        reason: String,
        effects: BanEffect,
        expires_at: Option<i64>,
    ) -> (r: Result<UserBan, ApiError>)
        ensures
            ban_check(actor_id, victim_id, actor_rank, victim_rank, actor_super_admin) matches Err(e) ==> r == Err::<UserBan, ApiError>(e),
            ban_check(actor_id, victim_id, actor_rank, victim_rank, actor_super_admin) is Ok ==> (r matches Ok(ban) && {
                &&& ban.id == ban_id
                &&& ban.user_id == victim_id
                &&& ban.created_by_id == actor_id
                &&& ban.reason@ == reason@
                &&& ban.expires_at == expires_at
                &&& ban.permissions == ban_permissions(effects)
            }),
    {
        check_can_ban(actor_id, victim_id, actor_rank, victim_rank, actor_super_admin)?;
        Ok(new_user_ban(ban_id, victim_id, actor_id, reason, effects, expires_at))
    }
}

impl BansMutation {
    /// A ban after an edit, as the stored update leaves it: a new reason
    /// when one is given, the new expiry (no expiry when none is given), and
    /// the permissions of the new effects when they are given.
    pub fn edit_ban(ban: &UserBan, reason: Option<String>, effects: Option<BanEffect>, expire_at: Option<i64>) -> (r: UserBan)
        ensures
            r.id == ban.id,
            r.user_id == ban.user_id,
            r.created_by_id == ban.created_by_id,
            r.reason@ == (match reason {
                Some(t) => t@,
                None => ban.reason@,
            }),
            r.expires_at == expire_at,
            r.permissions == (match effects {
                Some(e) => ban_permissions(e),
                None => ban.permissions,
            }),
    {
        UserBan {
            id: ban.id,
            user_id: ban.user_id,
            expires_at: expire_at,
            created_by_id: ban.created_by_id,
            reason: match reason {
                Some(t) => t,
                None => ban.reason.clone(),
            },
            permissions: match effects {
                Some(e) => ban_effect_to_permissions(e),
                None => ban.permissions,
            },
        }
    }
}

/// A memory-hole ban keeps its memory hole when shown again: the hidden flag
/// it allows is read back as the memory-hole effect.
pub proof fn ban_memory_hole_round_trip(e: BanEffect)
    ensures
        ban_effects_of(ban_permissions(e)).memory_hole == e.memory_hole,
{
    let p = ban_permissions(e);
    assert(FLAG_HIDDEN & FLAG_HIDDEN == FLAG_HIDDEN) by (bit_vector);
    assert(0u64 & FLAG_HIDDEN == 0) by (bit_vector);
    assert((0u64 | FLAG_HIDDEN) & FLAG_HIDDEN == FLAG_HIDDEN) by (bit_vector);
    assert(p.flag.deny == 0u64);
    if e.memory_hole {
        assert(p.flag.allow == 0u64 | FLAG_HIDDEN);
    } else {
        assert(p.flag.allow == 0u64);
    }
}

/// A ban takes away logging in exactly when it removes authentication or
/// blocks the user's address; taking away permissions leaves login alone.
pub proof fn ban_denies_login(e: BanEffect)
    ensures
        ban_permissions(e).refuses(permission(PermissionKind::User, USER_LOGIN)) == (e.no_auth || e.blocked_ip),
{
    assert((0u64 & 1u64) == 0) by (bit_vector);
    assert(((0u64 | 1u64) & 1u64) != 0) by (bit_vector);
    assert(((0u64 | (63u64 & !1u64)) & 1u64) == 0) by (bit_vector);
    assert((((0u64 | 1u64) | (63u64 & !1u64)) & 1u64) != 0) by (bit_vector);
    let p0 = Permissions::empty();
    let p1 = if e.memory_hole { with_allowed(p0, PermissionKind::Flag, FLAG_HIDDEN) } else { p0 };
    assert(p1.user == p0.user);
    let p2 = if e.no_auth || e.blocked_ip { with_denied(p1, PermissionKind::User, USER_LOGIN) } else { p1 };
    if e.no_permissions {
        let p3 = with_denied(p2, PermissionKind::Emote, EMOTE_ALL);
        let p4 = with_denied(p3, PermissionKind::EmoteSet, EMOTE_SET_ALL);
        assert(p4.user == p2.user);
    }
}

/// Who may ban whom: nobody bans themselves; anyone else is banned exactly
/// by a super admin or by an actor whose role ranks strictly above the
/// victim's, and every other actor is refused as forbidden.
pub proof fn only_higher_ranks_ban(actor_id: Id, victim_id: Id, actor_rank: i32, victim_rank: i32, actor_super_admin: bool)
    ensures
        ban_check(actor_id, victim_id, actor_rank, victim_rank, actor_super_admin) is Ok <==> (actor_id != victim_id && (
        actor_super_admin || actor_rank > victim_rank)),
        actor_id != victim_id && !actor_super_admin && actor_rank <= victim_rank ==> (ban_check(
            actor_id,
            victim_id,
            actor_rank,
            victim_rank,
            actor_super_admin,
        ) matches Err(e) && e.status == StatusCode::Forbidden),
{
}

} // verus!
