//! Roles: creating and deleting them, and how the v3 API shows them.
use vstd::prelude::*;
use vstd::set_lib::{lemma_int_range, lemma_len_subset, set_int_range};
use crate::entitlements::check_role_within_actor;
use crate::error::{api_error, ApiError, ApiErrorCode, StatusCode};
use crate::ids::{id_time_ms, id_timestamp_ms, Id};
use crate::permissions::Permissions;
use crate::text::{chars_of, decimal, push_decimal, string_of};

verus! {

/// Whether `c` is an ASCII decimal digit.
pub open spec fn is_digit(c: char) -> bool {
    '0' <= c <= '9'
}

/// The number the decimal digits of `s` spell, most significant first.
pub open spec fn decimal_value(s: Seq<char>) -> int
    decreases s.len(),
{
    if s.len() == 0 {
        0
    } else {
        decimal_value(s.drop_last()) * 10 + (s.last() as int - '0' as int)
    }
}

/// The digits of an unsigned number's text: the text without one leading
/// `+`.
pub open spec fn unsigned_digits(s: Seq<char>) -> Seq<char> {
    if s.len() > 0 && s[0] == '+' { s.skip(1) } else { s }
}

/// The `u64` a text spells, as `str::parse::<u64>` reads it: an optional
/// `+`, then at least one decimal digit, with a value that fits.
pub open spec fn u64_of_text(s: Seq<char>) -> Option<u64> {
    let d = unsigned_digits(s);
    if d.len() > 0 && (forall|i: int| 0 <= i < d.len() ==> is_digit(#[trigger] d[i])) && decimal_value(d) <= u64::MAX {
        Some(decimal_value(d) as u64)
    } else {
        None
    }
}

/// A text of digits spells at least what any of its prefixes spells.
proof fn lemma_decimal_prefix(s: Seq<char>, k: int)
    requires
        0 <= k <= s.len(),
        forall|i: int| 0 <= i < s.len() ==> is_digit(#[trigger] s[i]),
    ensures
        0 <= decimal_value(s.subrange(0, k)) <= decimal_value(s),
    decreases s.len(),
{
    if s.len() == 0 {
        assert(s.subrange(0, k) =~= s);
    } else if k == s.len() {
        assert(s.subrange(0, k) =~= s);
        lemma_decimal_prefix(s.drop_last(), 0);
        assert(s.drop_last().subrange(0, 0) =~= s.subrange(0, 0));
        assert(is_digit(s[s.len() - 1]));
    } else {
        let t = s.drop_last();
        assert forall|i: int| 0 <= i < t.len() implies is_digit(#[trigger] t[i]) by {
            assert(t[i] == s[i]);
        }
        lemma_decimal_prefix(t, k);
        assert(t.subrange(0, k) =~= s.subrange(0, k));
        assert(is_digit(s[s.len() - 1]));
        let v = decimal_value(t);
        assert(v * 10 >= v) by (nonlinear_arith)
            requires
                v >= 0,
        ;
    }
}

/// Reads an unsigned 64-bit number from its decimal text.
pub fn parse_u64(s: &str) -> (r: Option<u64>)
    ensures
        r == u64_of_text(s@),
{
    let cs = chars_of(s);
    let start: usize = if cs.len() > 0 && cs[0] == '+' { 1 } else { 0 };
    let ghost d = unsigned_digits(s@);
    assert(d =~= cs@.subrange(start as int, cs@.len() as int));
    if start >= cs.len() {
        return None;
    }
    let mut value: u64 = 0;
    let mut i: usize = start;
    while i < cs.len()
        invariant
            cs@ == s@,
            start <= i <= cs@.len(),
            d == cs@.subrange(start as int, cs@.len() as int),
            d == unsigned_digits(s@),
            forall|j: int| start <= j < i ==> is_digit(#[trigger] cs@[j]),
            value == decimal_value(cs@.subrange(start as int, i as int)),
        decreases cs@.len() - i,
    {
        let c = cs[i];
        let ghost pre = cs@.subrange(start as int, i + 1);
        assert(pre.drop_last() =~= cs@.subrange(start as int, i as int));
        if !('0' <= c && c <= '9') {
            assert(d[i - start] == c);
            assert(!is_digit(d[i - start]));
            return None;
        }
        let digit: u64 = (c as u32 - '0' as u32) as u64;
        let next = match value.checked_mul(10) {
            Some(v) => v.checked_add(digit),
            None => None,
        };
        match next {
            Some(v) => {
                value = v;
            },
            None => {
                proof {
                    assert(pre.last() == c);
                    assert(decimal_value(pre) == value * 10 + digit);
                    assert(decimal_value(pre) > u64::MAX);
                    if forall|j: int| 0 <= j < d.len() ==> is_digit(#[trigger] d[j]) {
                        lemma_decimal_prefix(d, i + 1 - start);
                        assert(d.subrange(0, i + 1 - start) =~= pre);
                    }
                }
                return None;
            },
        }
        i = i + 1;
    }
    assert(forall|j: int| 0 <= j < d.len() ==> is_digit(#[trigger] d[j])) by {
        assert forall|j: int| 0 <= j < d.len() implies is_digit(#[trigger] d[j]) by {
            assert(d[j] == cs@[start + j]);
        }
    }
    assert(cs@.subrange(start as int, i as int) =~= d);
    Some(value)
}

/// Whether `r` is the least rank that no role holds.
pub open spec fn first_free(ranks: Seq<i32>, r: i32) -> bool {
    &&& 0 <= r
    &&& !ranks.contains(r)
    &&& forall|k: i32| 0 <= k < r ==> ranks.contains(k)
}

/// When every rank below `n` is taken, there are at least `n` ranks.
proof fn lemma_taken_ranks_bound(ranks: Seq<i32>, n: int)
    requires
        0 <= n <= i32::MAX + 1,
        forall|k: i32| 0 <= k < n ==> ranks.contains(k),
    ensures
        n <= ranks.len(),
{
    let as_int = ranks.map_values(|x: i32| x as int);
    let taken = as_int.to_set();
    assert forall|k: int| #[trigger] set_int_range(0, n).contains(k) implies taken.contains(k) by {
        let k32 = k as i32;
        assert(ranks.contains(k32));
        let i = choose|i: int| 0 <= i < ranks.len() && ranks[i] == k32;
        assert(as_int[i] == k);
    }
    lemma_int_range(0, n);
    as_int.lemma_cardinality_of_set();
    lemma_len_subset(set_int_range(0, n), taken);
}

/// Whether `ranks` holds `rank`.
fn holds_rank(ranks: &Vec<i32>, rank: i32) -> (r: bool)
    ensures
        r == ranks@.contains(rank),
{
    let mut i: usize = 0;
    while i < ranks.len()
        invariant
            i <= ranks@.len(),
            forall|j: int| 0 <= j < i ==> ranks@[j] != rank,
        decreases ranks@.len() - i,
    {
        if ranks[i] == rank {
            return true;
        }
        i = i + 1;
    }
    false
}

/// The rank a new role takes: the least non-negative rank that no role
/// holds.
pub fn first_free_rank(ranks: &Vec<i32>) -> (r: i32)
    requires
        ranks@.len() < i32::MAX,
    ensures
        first_free(ranks@, r),
{
    let mut rank: i32 = 0;
    while holds_rank(ranks, rank)
        invariant
            ranks@.len() < i32::MAX,
            0 <= rank,
            forall|k: i32| 0 <= k < rank ==> ranks@.contains(k),
        decreases ranks@.len() - rank,
    {
        proof {
            assert forall|k: i32| 0 <= k < rank + 1 implies ranks@.contains(k) by {
                if k == rank {
                } else {
                }
            }
            lemma_taken_ranks_bound(ranks@, rank + 1);
        }
        rank = rank + 1;
    }
    rank
}

/// What a new role is created with.
#[derive(Clone, Debug)]
pub struct CreateRoleInput {
    pub name: String,
    pub color: i32,
    pub allowed: String,
    pub denied: String,
}

/// The changes asked of a role.
#[derive(Clone, Debug)]
pub struct EditRoleInput {
    pub name: Option<String>,
    pub color: Option<i32>,
    pub allowed: Option<String>,
    pub denied: Option<String>,
    pub position: Option<u32>,
}

/// A role as it is stored.
#[derive(Clone, Debug)]
pub struct StoredRole {
    pub id: Id,
    pub name: String,
    pub permissions: Permissions,
    pub color: Option<i32>,
    pub rank: i32,
    pub created_by: Id,
}

/// The mutations on roles.
#[derive(Clone, Copy, Debug, Default)]
pub struct RolesMutation;

pub open spec fn invalid_allowed() -> ApiError {
    api_error(StatusCode::BadRequest, ApiErrorCode::BadRequest, "invalid allowed permission")
}

pub open spec fn invalid_denied() -> ApiError {
    api_error(StatusCode::BadRequest, ApiErrorCode::BadRequest, "invalid denied permission")
}

pub open spec fn higher_role() -> ApiError {
    api_error(StatusCode::Forbidden, ApiErrorCode::LackingPrivileges, "the role has a higher permission level than you")
}

pub open spec fn role_not_found() -> ApiError {
    api_error(StatusCode::NotFound, ApiErrorCode::LoadError, "role not found")
}

pub open spec fn edit_role_unsupported() -> ApiError {
    api_error(
        StatusCode::NotImplemented,
        ApiErrorCode::Unknown,
        "The edit role mutation is not implemented, due to lack of frontend support",
    )
}

impl RolesMutation {
    /// Reads the allowed and denied permission numbers of a new role.
    pub fn create_role_bits(data: &CreateRoleInput) -> (r: Result<(u64, u64), ApiError>)
        ensures
            r == (match (u64_of_text(data.allowed@), u64_of_text(data.denied@)) {
                (None, _) => Err(invalid_allowed()),
                (Some(_), None) => Err(invalid_denied()),
                (Some(a), Some(d)) => Ok::<(u64, u64), ApiError>((a, d)),
            }),
    {
        let allowed = match parse_u64(data.allowed.as_str()) {
            Some(a) => a,
            None => {
                return Err(ApiError::bad_request(ApiErrorCode::BadRequest, "invalid allowed permission"));
            },
        };
        let denied = match parse_u64(data.denied.as_str()) {
            Some(d) => d,
            None => {
                return Err(ApiError::bad_request(ApiErrorCode::BadRequest, "invalid denied permission"));
            },
        };
        Ok((allowed, denied))
    }

    /// Builds the new role once the actor is known to cover its
    /// permissions: it takes the first free rank, the asked name and color,
    /// and records its creator.
    pub fn create_role(
        actor: &Permissions,
        data: &CreateRoleInput,
        permissions: &Permissions,
        existing_ranks: &Vec<i32>,
        id: Id,
        created_by: Id,
    ) -> (r: Result<StoredRole, ApiError>)
        requires
            existing_ranks@.len() < i32::MAX,
        ensures
            !actor.covers(*permissions) ==> r == Err::<StoredRole, ApiError>(higher_role()),
            actor.covers(*permissions) ==> (r matches Ok(role) && {
                &&& role.id == id
                &&& role.name@ == data.name@
                &&& role.permissions == *permissions
                &&& role.color == Some(data.color)
                &&& first_free(existing_ranks@, role.rank)
                &&& role.created_by == created_by
            }),
    {
        check_role_within_actor(actor, permissions)?;
        let rank = first_free_rank(existing_ranks);
        Ok(StoredRole {
            id,
            name: data.name.clone(),
            permissions: *permissions,
            color: Some(data.color),
            rank,
            created_by,
        })
    }

    /// Editing a role is not offered.
    pub fn edit_role(role_id: Id, data: &EditRoleInput) -> (r: Result<StoredRole, ApiError>)
        ensures
            r == Err::<StoredRole, ApiError>(edit_role_unsupported()),
    {
        Err(ApiError::not_implemented(
            ApiErrorCode::Unknown,
            "The edit role mutation is not implemented, due to lack of frontend support",
        ))
    }

    /// The checks before a role is deleted: it must exist, and the actor
    /// must cover its permissions.
    pub fn delete_role_check(actor: &Permissions, role: &Option<StoredRole>) -> (r: Result<(), ApiError>)
        ensures
            r == (match role {
                None => Err(role_not_found()),
                Some(ro) => if actor.covers(ro.permissions) {
                    Ok::<(), ApiError>(())
                } else {
                    Err(higher_role())
                },
            }),
    {
        match role {
            None => Err(ApiError::not_found(ApiErrorCode::LoadError, "role not found")),
            Some(ro) => check_role_within_actor(actor, &ro.permissions),
        }
    }

    /// The answer once the delete ran: an empty text, unless nothing was
    /// deleted.
    pub fn delete_role_result(deleted_count: u64) -> (r: Result<String, ApiError>)
        ensures
            deleted_count == 0 ==> r == Err::<String, ApiError>(role_not_found()),
            deleted_count != 0 ==> (r matches Ok(s) && s@.len() == 0),
    {
        if deleted_count == 0 {
            Err(ApiError::not_found(ApiErrorCode::LoadError, "role not found"))
        } else {
            Ok(String::new())
        }
    }
}

/// A role as the v3 API shows it: its permissions as the allowed and
/// denied numbers of the old permission model.
#[derive(Clone, Debug)]
pub struct Role {
    pub id: Id,
    pub name: String,
    pub color: i32,
    pub position: i32,
    pub invisible: bool,
    pub allowed: u64,
    pub denied: u64,
}

impl Role {
    /// The view of a stored role, given its permissions in the old model.
    pub fn from_db(role: &StoredRole, allowed: u64, denied: u64) -> (r: Role)
        ensures
            r.id == role.id,
            r.name@ == role.name@,
            r.color == (match role.color {
                Some(c) => c,
                None => 0,
            }),
            r.position == role.rank,
            !r.invisible,
            r.allowed == allowed,
            r.denied == denied,
    {
        Role {
            id: role.id,
            name: role.name.clone(),
            color: match role.color {
                Some(c) => c,
                None => 0,
            },
            position: role.rank,
            invisible: false,
            allowed,
            denied,
        }
    }

    /// The allowed permissions, as decimal text.
    pub fn allowed_text(&self) -> (r: String)
        ensures
            r@ == decimal(self.allowed as nat),
    {
        let mut v: Vec<char> = Vec::new();
        push_decimal(&mut v, self.allowed);
        assert(v@ =~= decimal(self.allowed as nat));
        string_of(&v)
    }

    /// The denied permissions, as decimal text.
    pub fn denied_text(&self) -> (r: String)
        ensures
            r@ == decimal(self.denied as nat),
    {
        let mut v: Vec<char> = Vec::new();
        push_decimal(&mut v, self.denied);
        assert(v@ =~= decimal(self.denied as nat));
        string_of(&v)
    }

    /// When the role was made, in milliseconds since the epoch.
    pub fn created_at(&self) -> (r: u64)
        ensures
            r == id_time_ms(self.id),
    {
        id_timestamp_ms(self.id)
    }
}

} // verus!
