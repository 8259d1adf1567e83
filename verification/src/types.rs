//! The general data model used across the service: user permissions.

use vstd::prelude::*;

verus! {

/// A permission a user can hold; stored as bit flags in the user record.
#[derive(Clone, Copy, PartialEq, Eq, Debug)]
pub enum Permission {
    /// Administration of users and registrations.
    Management,
}

/// The flag bit of a permission.
pub open spec fn permission_bit(p: Permission) -> u32 {
    match p {
        Permission::Management => 1,
    }
}

/// Whether the flags `bits` grant `p`.
pub open spec fn has_permission(bits: u32, p: Permission) -> bool {
    bits & permission_bit(p) != 0
}

impl Permission {
    /// The flag bit of this permission.
    pub fn bit(&self) -> (b: u32)
        ensures
            b == permission_bit(*self),
    {
        match self {
            Permission::Management => 1,
        }
    }

    /// The flags holding exactly the given permissions.
    pub fn construct_number(perms: &Vec<Permission>) -> (bits: u32)
        ensures
            forall|p: Permission| has_permission(bits, p) <==> perms@.contains(p),
    {
        let mut bits: u32 = 0;
        let mut i: usize = 0;
        while i < perms.len()
            invariant
                i <= perms.len(),
                bits == 0 || bits == 1,
                (bits == 1) <==> (exists|j: int| 0 <= j < i && perms@[j] == Permission::Management),
            decreases perms.len() - i,
        {
            match perms[i] {
                Permission::Management => {
                    bits = 1;
                },
            }
            i += 1;
        }
        proof {
            assert forall|p: Permission| has_permission(bits, p) <==> perms@.contains(p) by {
                match p {
                    Permission::Management => {
                        assert(1u32 & 1u32 != 0) by (bit_vector);
                        assert(0u32 & 1u32 == 0) by (bit_vector);
                        if perms@.contains(p) {
                            let j = choose|j: int| 0 <= j < perms@.len() && perms@[j] == p;
                            assert(perms@[j] == Permission::Management);
                        }
                    },
                }
            }
        }
        bits
    }

    /// The permissions granted by the flags `bits`.
    pub fn from_u32(bits: u32) -> (perms: Vec<Permission>)
        ensures
            forall|p: Permission| perms@.contains(p) <==> has_permission(bits, p),
            perms@.no_duplicates(),
    {
        let mut perms = Vec::new();
        if bits & 1 != 0 {
            perms.push(Permission::Management);
            assert(perms@[0] == Permission::Management);
        }
        proof {
            assert forall|p: Permission| perms@.contains(p) <==> has_permission(bits, p) by {
                match p {
                    Permission::Management => {
                        if perms@.contains(p) {
                            let j = choose|j: int| 0 <= j < perms@.len() && perms@[j] == p;
                        }
                    },
                }
            }
        }
        perms
    }

    /// The permissions granted by the flags `bits` (same as [`Permission::from_u32`]).
    pub fn parse_flags(bits: u32) -> (perms: Vec<Permission>)
        ensures
            forall|p: Permission| perms@.contains(p) <==> has_permission(bits, p),
    {
        Permission::from_u32(bits)
    }
}

/// Whether the flags `bits` grant the management permission.
pub fn is_manager(bits: u32) -> (b: bool)
    ensures
        b == has_permission(bits, Permission::Management),
{
    bits & 1 != 0
}

} // verus!
