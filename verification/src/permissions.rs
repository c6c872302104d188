//! Permission sets: for each area of the site, the bits a role or ban allows
//! and the bits it denies, plus the numeric limits that come with them.
use vstd::prelude::*;

verus! {

/// The areas that permissions are grouped by.
#[derive(Clone, Copy, Debug, PartialEq, Eq, Structural)]
pub enum PermissionKind {
    Admin,
    User,
    Emote,
    EmoteSet,
    Flag,
    Role,
    Ticket,
    Paint,
    EmoteModerationRequest,
    Feature,
}

/// One permission: some bits of one area.
#[derive(Clone, Copy, Debug, PartialEq, Eq, Structural)]
pub struct Permission {
    pub kind: PermissionKind,
    pub bits: u64,
}

pub const ADMIN_SUPER_ADMIN: u64 = 1;

pub const USER_LOGIN: u64 = 1;
pub const USER_INVITE_EDITORS: u64 = 2;
pub const USER_USE_PERSONAL_EMOTE_SET: u64 = 4;
pub const USER_VIEW_HIDDEN: u64 = 8;
pub const USER_MODERATE: u64 = 16;
pub const USER_MANAGE_ANY: u64 = 32;
pub const USER_ALL: u64 = 63;

pub const EMOTE_UPLOAD: u64 = 1;
pub const EMOTE_EDIT: u64 = 2;
pub const EMOTE_DELETE: u64 = 4;
pub const EMOTE_MERGE: u64 = 8;
pub const EMOTE_VIEW_UNLISTED: u64 = 16;
pub const EMOTE_MANAGE_ANY: u64 = 32;
pub const EMOTE_ADMIN: u64 = 64;
pub const EMOTE_ALL: u64 = 127;

pub const EMOTE_SET_MANAGE: u64 = 1;
pub const EMOTE_SET_MANAGE_ANY: u64 = 2;
pub const EMOTE_SET_MANAGE_GLOBAL: u64 = 4;
pub const EMOTE_SET_MANAGE_SPECIAL: u64 = 8;
pub const EMOTE_SET_ALL: u64 = 15;

pub const FLAG_HIDDEN: u64 = 1;

pub const ROLE_ASSIGN: u64 = 1;
pub const ROLE_MANAGE: u64 = 2;

pub const TICKET_CREATE: u64 = 1;
pub const TICKET_MANAGE_ABUSE: u64 = 2;
pub const TICKET_MANAGE_GENERIC: u64 = 4;

pub const PAINT_MANAGE: u64 = 1;

pub const EMOTE_MODERATION_REQUEST_MANAGE: u64 = 1;

/// What one area allows and denies.
#[derive(Clone, Copy, Debug, PartialEq, Eq, Structural)]
pub struct AllowDeny {
    pub allow: u64,
    pub deny: u64,
}

/// A full permission set with its limits.
#[derive(Clone, Copy, Debug)]
pub struct Permissions {
    pub admin: AllowDeny,
    pub user: AllowDeny,
    pub emote: AllowDeny,
    pub emote_set: AllowDeny,
    pub flag: AllowDeny,
    pub role: AllowDeny,
    pub ticket: AllowDeny,
    pub paint: AllowDeny,
    pub emote_moderation_request: AllowDeny,
    pub feature: AllowDeny,
    pub emote_set_capacity: Option<i32>,
    pub personal_emote_set_capacity: Option<i32>,
    pub emote_set_limit: Option<i32>,
    pub emote_moderation_request_priority: Option<i32>,
    pub emote_moderation_request_limit: Option<i32>,
    pub graphql_rate_limit: Option<i32>,
}

pub open spec fn permission(kind: PermissionKind, bits: u64) -> Permission {
    Permission { kind, bits }
}

/// The bits of an area that are allowed and not denied.
pub open spec fn effective(g: AllowDeny) -> u64 {
    g.allow & !g.deny
}

/// `mine` effectively grants every bit that `theirs` effectively grants.
pub open spec fn covers_group(mine: AllowDeny, theirs: AllowDeny) -> bool {
    (effective(theirs) & !effective(mine)) == 0
}

pub open spec fn no_bits() -> AllowDeny {
    AllowDeny { allow: 0, deny: 0 }
}

impl Permissions {
    pub open spec fn group(self, kind: PermissionKind) -> AllowDeny {
        match kind {
            PermissionKind::Admin => self.admin,
            PermissionKind::User => self.user,
            PermissionKind::Emote => self.emote,
            PermissionKind::EmoteSet => self.emote_set,
            PermissionKind::Flag => self.flag,
            PermissionKind::Role => self.role,
            PermissionKind::Ticket => self.ticket,
            PermissionKind::Paint => self.paint,
            PermissionKind::EmoteModerationRequest => self.emote_moderation_request,
            PermissionKind::Feature => self.feature,
        }
    }

    /// Every bit of `p` is allowed and none is denied.
    pub open spec fn grants(self, p: Permission) -> bool {
        let g = self.group(p.kind);
        (g.allow & p.bits) == p.bits && (g.deny & p.bits) == 0
    }

    /// Some bit of `p` is denied.
    pub open spec fn refuses(self, p: Permission) -> bool {
        (self.group(p.kind).deny & p.bits) != 0
    }

    /// In every area, whatever `other` effectively grants, `self` effectively grants too.
    pub open spec fn covers(self, other: Permissions) -> bool {
        &&& covers_group(self.admin, other.admin)
        &&& covers_group(self.user, other.user)
        &&& covers_group(self.emote, other.emote)
        &&& covers_group(self.emote_set, other.emote_set)
        &&& covers_group(self.flag, other.flag)
        &&& covers_group(self.role, other.role)
        &&& covers_group(self.ticket, other.ticket)
        &&& covers_group(self.paint, other.paint)
        &&& covers_group(self.emote_moderation_request, other.emote_moderation_request)
        &&& covers_group(self.feature, other.feature)
    }

    /// The same permission set with one area replaced.
    pub open spec fn with_group(self, kind: PermissionKind, g: AllowDeny) -> Permissions {
        match kind {
            PermissionKind::Admin => Permissions { admin: g, ..self },
            PermissionKind::User => Permissions { user: g, ..self },
            PermissionKind::Emote => Permissions { emote: g, ..self },
            PermissionKind::EmoteSet => Permissions { emote_set: g, ..self },
            PermissionKind::Flag => Permissions { flag: g, ..self },
            PermissionKind::Role => Permissions { role: g, ..self },
            PermissionKind::Ticket => Permissions { ticket: g, ..self },
            PermissionKind::Paint => Permissions { paint: g, ..self },
            PermissionKind::EmoteModerationRequest => Permissions { emote_moderation_request: g, ..self },
            PermissionKind::Feature => Permissions { feature: g, ..self },
        }
    }

    /// The permission set that allows and denies nothing and has no limits.
    pub open spec fn empty() -> Permissions {
        Permissions {
            admin: no_bits(),
            user: no_bits(),
            emote: no_bits(),
            emote_set: no_bits(),
            flag: no_bits(),
            role: no_bits(),
            ticket: no_bits(),
            paint: no_bits(),
            emote_moderation_request: no_bits(),
            feature: no_bits(),
            emote_set_capacity: None,
            personal_emote_set_capacity: None,
            emote_set_limit: None,
            emote_moderation_request_priority: None,
            emote_moderation_request_limit: None,
            graphql_rate_limit: None,
        }
    }

    pub fn new() -> (p: Permissions)
        ensures
            p == Permissions::empty(),
    {
        let z = AllowDeny { allow: 0, deny: 0 };
        Permissions {
            admin: z,
            user: z,
            emote: z,
            emote_set: z,
            flag: z,
            role: z,
            ticket: z,
            paint: z,
            emote_moderation_request: z,
            feature: z,
            emote_set_capacity: None,
            personal_emote_set_capacity: None,
            emote_set_limit: None,
            emote_moderation_request_priority: None,
            emote_moderation_request_limit: None,
            graphql_rate_limit: None,
        }
    }

    pub fn get_group(&self, kind: PermissionKind) -> (g: AllowDeny)
        ensures
            g == self.group(kind),
    {
        match kind {
            PermissionKind::Admin => self.admin,
            PermissionKind::User => self.user,
            PermissionKind::Emote => self.emote,
            PermissionKind::EmoteSet => self.emote_set,
            PermissionKind::Flag => self.flag,
            PermissionKind::Role => self.role,
            PermissionKind::Ticket => self.ticket,
            PermissionKind::Paint => self.paint,
            PermissionKind::EmoteModerationRequest => self.emote_moderation_request,
            PermissionKind::Feature => self.feature,
        }
    }

    fn set_group(&mut self, kind: PermissionKind, g: AllowDeny)
        ensures
            *final(self) == old(self).with_group(kind, g),
    {
        match kind {
            PermissionKind::Admin => self.admin = g,
            PermissionKind::User => self.user = g,
            PermissionKind::Emote => self.emote = g,
            PermissionKind::EmoteSet => self.emote_set = g,
            PermissionKind::Flag => self.flag = g,
            PermissionKind::Role => self.role = g,
            PermissionKind::Ticket => self.ticket = g,
            PermissionKind::Paint => self.paint = g,
            PermissionKind::EmoteModerationRequest => self.emote_moderation_request = g,
            PermissionKind::Feature => self.feature = g,
        }
    }

    /// Whether every bit of `p` is allowed and none denied.
    pub fn has(&self, p: Permission) -> (r: bool)
        ensures
            r == self.grants(p),
    {
        let g = self.get_group(p.kind);
        (g.allow & p.bits) == p.bits && (g.deny & p.bits) == 0
    }

    /// Whether some bit of `p` is denied.
    pub fn denied(&self, p: Permission) -> (r: bool)
        ensures
            r == self.refuses(p),
    {
        let g = self.get_group(p.kind);
        (g.deny & p.bits) != 0
    }

    /// Whether every permission of the list is granted.
    pub fn has_all(&self, ps: &Vec<Permission>) -> (r: bool)
        ensures
            r == (forall|i: int| 0 <= i < ps@.len() ==> self.grants(#[trigger] ps@[i])),
    {
        let mut i: usize = 0;
        while i < ps.len()
            invariant
                i <= ps@.len(),
                forall|j: int| 0 <= j < i ==> self.grants(#[trigger] ps@[j]),
            decreases ps@.len() - i,
        {
            if !self.has(ps[i]) {
                return false;
            }
            i = i + 1;
        }
        true
    }

    /// Whether some permission of the list is granted.
    pub fn has_any(&self, ps: &Vec<Permission>) -> (r: bool)
        ensures
            r == (exists|i: int| 0 <= i < ps@.len() && self.grants(#[trigger] ps@[i])),
    {
        let mut i: usize = 0;
        while i < ps.len()
            invariant
                i <= ps@.len(),
                forall|j: int| 0 <= j < i ==> !self.grants(#[trigger] ps@[j]),
            decreases ps@.len() - i,
        {
            if self.has(ps[i]) {
                return true;
            }
            i = i + 1;
        }
        false
    }

    /// Adds the bits of `p` to what its area allows.
    pub fn allow(&mut self, p: Permission)
        ensures
            *final(self) == old(self).with_group(
                p.kind,
                AllowDeny { allow: old(self).group(p.kind).allow | p.bits, deny: old(self).group(p.kind).deny },
            ),
    {
        let g = self.get_group(p.kind);
        self.set_group(p.kind, AllowDeny { allow: g.allow | p.bits, deny: g.deny });
    }

    /// Adds the bits of `p` to what its area denies.
    pub fn deny(&mut self, p: Permission)
        ensures
            *final(self) == old(self).with_group(
                p.kind,
                AllowDeny { allow: old(self).group(p.kind).allow, deny: old(self).group(p.kind).deny | p.bits },
            ),
    {
        let g = self.get_group(p.kind);
        self.set_group(p.kind, AllowDeny { allow: g.allow, deny: g.deny | p.bits });
    }

    /// Whether in every area `self` effectively grants all that `other` does.
    pub fn is_superset_of(&self, other: &Permissions) -> (r: bool)
        ensures
            r == self.covers(*other),
    {
        group_covers(self.admin, other.admin) && group_covers(self.user, other.user)
            && group_covers(self.emote, other.emote) && group_covers(self.emote_set, other.emote_set)
            && group_covers(self.flag, other.flag) && group_covers(self.role, other.role)
            && group_covers(self.ticket, other.ticket) && group_covers(self.paint, other.paint)
            && group_covers(self.emote_moderation_request, other.emote_moderation_request)
            && group_covers(self.feature, other.feature)
    }
}

/// Whether `mine` effectively grants every bit that `theirs` effectively grants.
fn group_covers(mine: AllowDeny, theirs: AllowDeny) -> (r: bool)
    ensures
        r == ((effective(theirs) & !effective(mine)) == 0),
{
    ((theirs.allow & !theirs.deny) & !(mine.allow & !mine.deny)) == 0
}

proof fn lemma_group_covers_itself(g: AllowDeny)
    ensures
        covers_group(g, g),
{
    let e = effective(g);
    assert((e & !e) == 0) by (bit_vector);
}

proof fn lemma_group_covers_transitive(a: AllowDeny, b: AllowDeny, c: AllowDeny)
    requires
        covers_group(a, b),
        covers_group(b, c),
    ensures
        covers_group(a, c),
{
    let (ea, eb, ec) = (effective(a), effective(b), effective(c));
    assert((ec & !ea) == 0) by (bit_vector)
        requires
            (eb & !ea) == 0,
            (ec & !eb) == 0,
    ;
}

/// Every permission set covers itself: an actor may always hand out a role
/// that grants exactly what they have.
pub proof fn covers_itself(p: Permissions)
    ensures
        p.covers(p),
{
    lemma_group_covers_itself(p.admin);
    lemma_group_covers_itself(p.user);
    lemma_group_covers_itself(p.emote);
    lemma_group_covers_itself(p.emote_set);
    lemma_group_covers_itself(p.flag);
    lemma_group_covers_itself(p.role);
    lemma_group_covers_itself(p.ticket);
    lemma_group_covers_itself(p.paint);
    lemma_group_covers_itself(p.emote_moderation_request);
    lemma_group_covers_itself(p.feature);
}

/// Covering is transitive: who covers someone covers all that they cover.
pub proof fn covers_transitive(a: Permissions, b: Permissions, c: Permissions)
    requires
        a.covers(b),
        b.covers(c),
    ensures
        a.covers(c),
{
    lemma_group_covers_transitive(a.admin, b.admin, c.admin);
    lemma_group_covers_transitive(a.user, b.user, c.user);
    lemma_group_covers_transitive(a.emote, b.emote, c.emote);
    lemma_group_covers_transitive(a.emote_set, b.emote_set, c.emote_set);
    lemma_group_covers_transitive(a.flag, b.flag, c.flag);
    lemma_group_covers_transitive(a.role, b.role, c.role);
    lemma_group_covers_transitive(a.ticket, b.ticket, c.ticket);
    lemma_group_covers_transitive(a.paint, b.paint, c.paint);
    lemma_group_covers_transitive(a.emote_moderation_request, b.emote_moderation_request, c.emote_moderation_request);
    lemma_group_covers_transitive(a.feature, b.feature, c.feature);
}

/// A denial wins: once a permission is denied it is not granted, whatever
/// is allowed; and allowing a permission grants it unless some of it is
/// denied.
pub proof fn deny_wins(s: Permissions, p: Permission)
    requires
        p.bits != 0,
    ensures
        ({
            let g = s.group(p.kind);
            let denied = s.with_group(p.kind, AllowDeny { allow: g.allow, deny: g.deny | p.bits });
            !denied.grants(p) && denied.refuses(p)
        }),
        ({
            let g = s.group(p.kind);
            let allowed = s.with_group(p.kind, AllowDeny { allow: g.allow | p.bits, deny: g.deny });
            allowed.grants(p) == ((g.deny & p.bits) == 0)
        }),
{
    let g = s.group(p.kind);
    let (a, d, b) = (g.allow, g.deny, p.bits);
    assert(((d | b) & b) != 0) by (bit_vector)
        requires
            b != 0,
    ;
    assert(((a | b) & b) == b) by (bit_vector);
    let denied = s.with_group(p.kind, AllowDeny { allow: a, deny: d | b });
    let allowed = s.with_group(p.kind, AllowDeny { allow: a | b, deny: d });
    assert(denied.group(p.kind) == AllowDeny { allow: a, deny: d | b });
    assert(allowed.group(p.kind) == AllowDeny { allow: a | b, deny: d });
}

} // verus!
