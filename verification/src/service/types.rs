//! Shared types of the general API: users and profiles as shown to clients.

use crate::types::{has_permission, Permission};
use vstd::prelude::*;

verus! {

/// A user as shown by the general API.
pub struct UserPayload {
    pub id: u128,
    pub name: String,
    pub email: String,
    pub permissions: Vec<Permission>,
}

impl UserPayload {
    /// The user with this id, nickname, email and permission flags, the flags
    /// listed as the permissions they grant.
    pub fn from_user(id: u128, nickname: String, email: String, permission: u32) -> (r: Self)
        ensures
            r.id == id,
            r.name@ == nickname@,
            r.email@ == email@,
            forall|p: Permission| r.permissions@.contains(p) <==> has_permission(permission, p),
            r.permissions@.no_duplicates(),
    {
        UserPayload { id, name: nickname, email, permissions: Permission::from_u32(permission) }
    }
}

/// A profile as shown by the general API: its id, name and owner.
pub struct ProfilePayload {
    pub id: u128,
    pub name: String,
    pub owner: u128,
}

} // verus!
