//! GraphQL guards: permission checks and rate limiting.
use std::collections::HashMap;
use vstd::prelude::*;
use crate::error::{api_error, ApiError, ApiErrorCode, StatusCode};
use crate::permissions::{Permission, Permissions};

verus! {

broadcast use vstd::std_specs::hash::group_hash_axioms;

/// A guard that lets a request through when the user has the permissions.
#[derive(Clone, Debug)]
pub struct PermissionGuard {
    pub permissions: Vec<Permission>,
    pub all: bool,
}

pub open spec fn forbidden() -> ApiError {
    api_error(StatusCode::Forbidden, ApiErrorCode::Unknown, "forbidden")
}

impl PermissionGuard {
    /// A guard asking for one permission.
    pub fn one(permission: Permission) -> (g: PermissionGuard)
        ensures
            g.permissions@ == seq![permission],
            g.all,
    {
        let mut permissions = Vec::new();
        permissions.push(permission);
        PermissionGuard { permissions, all: true }
    }

    /// A guard asking for every permission of the list.
    pub fn all(permissions: Vec<Permission>) -> (g: PermissionGuard)
        ensures
            g.permissions@ == permissions@,
            g.all,
    {
        PermissionGuard { permissions, all: true }
    }

    /// Lets a user with the given permissions through: all of the guard's
    /// permissions when `all` is set, else any one of them.
    pub fn check(&self, user: &Permissions) -> (r: Result<(), ApiError>)
        ensures
            r == (if (self.all && !(forall|i: int| 0 <= i < self.permissions@.len() ==> user.grants(#[trigger] self.permissions@[i])))
                || (!self.all && !(exists|i: int| 0 <= i < self.permissions@.len() && user.grants(#[trigger] self.permissions@[i]))) {
                Err(forbidden())
            } else {
                Ok(())
            }),
    {
        if self.all {
            if !user.has_all(&self.permissions) {
                return Err(ApiError::forbidden(ApiErrorCode::Unknown, "forbidden"));
            }
        } else if !user.has_any(&self.permissions) {
            return Err(ApiError::forbidden(ApiErrorCode::Unknown, "forbidden"));
        }
        Ok(())
    }
}

/// What a rate limit counts.
#[derive(Clone, Copy, Debug, PartialEq, Eq, Structural)]
pub enum RateLimitResource {
    Global,
    Search,
    EmoteUpload,
    EmoteSetCreate,
    EmoteSetChange,
    UserChangeConnections,
    UserChangeEditor,
    UserChangeCosmetics,
    UserChangePicture,
}

/// The number a resource is counted under.
pub open spec fn resource_key(r: RateLimitResource) -> u8 {
    match r {
        RateLimitResource::Global => 0,
        RateLimitResource::Search => 1,
        RateLimitResource::EmoteUpload => 2,
        RateLimitResource::EmoteSetCreate => 3,
        RateLimitResource::EmoteSetChange => 4,
        RateLimitResource::UserChangeConnections => 5,
        RateLimitResource::UserChangeEditor => 6,
        RateLimitResource::UserChangeCosmetics => 7,
        RateLimitResource::UserChangePicture => 8,
    }
}

fn key_of(r: RateLimitResource) -> (k: u8)
    ensures
        k == resource_key(r),
{
    match r {
        RateLimitResource::Global => 0,
        RateLimitResource::Search => 1,
        RateLimitResource::EmoteUpload => 2,
        RateLimitResource::EmoteSetCreate => 3,
        RateLimitResource::EmoteSetChange => 4,
        RateLimitResource::UserChangeConnections => 5,
        RateLimitResource::UserChangeEditor => 6,
        RateLimitResource::UserChangeCosmetics => 7,
        RateLimitResource::UserChangePicture => 8,
    }
}

/// A guard that takes tickets of a rate-limited resource.
#[derive(Clone, Copy, Debug)]
pub struct RateLimitGuard {
    pub resource: RateLimitResource,
    pub ticket_count: u64,
}

impl RateLimitGuard {
    pub fn new(resource: RateLimitResource, ticket_count: u64) -> (g: RateLimitGuard)
        ensures
            g.resource == resource,
            g.ticket_count == ticket_count,
    {
        RateLimitGuard { resource, ticket_count }
    }

    /// A guard on searches.
    pub fn search(ticket_count: u64) -> (g: RateLimitGuard)
        ensures
            g.resource == RateLimitResource::Search,
            g.ticket_count == ticket_count,
    {
        RateLimitGuard::new(RateLimitResource::Search, ticket_count)
    }

    /// The limit a user's GraphQL rate limit sets on the request, with a
    /// negative limit counting as 0.
    pub fn user_limit(perms: &Permissions) -> (r: Option<u64>)
        ensures
            r == (match perms.graphql_rate_limit {
                Some(l) => Some(if l < 0 { 0u64 } else { l as u64 }),
                None => None,
            }),
    {
        match perms.graphql_rate_limit {
            Some(l) => Some(if l < 0 { 0 } else { l as u64 }),
            None => None,
        }
    }
}

/// How many tickets a request used of each resource.
pub struct RateLimitResponseStore {
    used: HashMap<u8, u64>,
}

impl RateLimitResponseStore {
    /// The tickets used per resource key.
    pub closed spec fn counts(&self) -> Map<u8, u64> {
        self.used@
    }

    /// The tickets used of a resource so far.
    pub open spec fn used_of(&self, r: RateLimitResource) -> u64 {
        if self.counts().contains_key(resource_key(r)) { self.counts()[resource_key(r)] } else { 0 }
    }

    pub fn new() -> (s: RateLimitResponseStore)
        ensures
            s.counts() == Map::<u8, u64>::empty(),
    {
        RateLimitResponseStore { used: HashMap::new() }
    }

    /// The tickets used of a resource so far.
    pub fn used(&self, resource: RateLimitResource) -> (r: u64)
        ensures
            r == self.used_of(resource),
    {
        match self.used.get(&key_of(resource)) {
            Some(v) => *v,
            None => 0,
        }
    }

    /// Adds `count` tickets of `resource`, and gives the total used so far.
    pub fn incr_used(&mut self, resource: RateLimitResource, count: u64) -> (total: u64)
        requires
            old(self).used_of(resource) + count <= u64::MAX,
        ensures
            total == old(self).used_of(resource) + count,
            final(self).counts() == old(self).counts().insert(resource_key(resource), total),
    {
        let k = key_of(resource);
        let before = match self.used.get(&k) {
            Some(v) => *v,
            None => 0,
        };
        let total = before + count;
        self.used.insert(k, total);
        total
    }
}

} // verus!
