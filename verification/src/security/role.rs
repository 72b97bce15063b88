//! User roles and the permissions they grant.

use vstd::prelude::*;

verus! {

/// The role of a user; an administrator ranks above a plain user.
#[derive(Clone, Copy, Debug, PartialEq, Eq, Structural)]
pub enum Role {
    RoleUser,
    RoleAdmin,
}

impl Role {
    /// The rank of the role: 1 for a user, 2 for an administrator.
    pub open spec fn rank(self) -> int {
        match self {
            Role::RoleUser => 1,
            Role::RoleAdmin => 2,
        }
    }

    /// The role a stored role name denotes.
    pub open spec fn spec_from_name(name: Seq<char>) -> Option<Role> {
        if name == "USER"@ {
            Some(Role::RoleUser)
        } else if name == "ADMIN"@ {
            Some(Role::RoleAdmin)
        } else {
            None
        }
    }

    /// Reads a role from its stored name (`USER` or `ADMIN`).
    pub fn from_str(role: &str) -> (r: Option<Role>)
        ensures
            r == Role::spec_from_name(role@),
    {
        if crate::text::str_eq(role, "USER") {
            Some(Role::RoleUser)
        } else if crate::text::str_eq(role, "ADMIN") {
            Some(Role::RoleAdmin)
        } else {
            None
        }
    }

    /// Whether the role ranks at least as a plain user.
    pub fn has_user_permission(&self) -> (b: bool)
        ensures
            b == (self.rank() >= Role::RoleUser.rank()),
    {
        match self {
            Role::RoleUser => true,
            Role::RoleAdmin => true,
        }
    }

    /// Whether the role ranks at least as an administrator.
    pub fn has_admin_permission(&self) -> (b: bool)
        ensures
            b == (self.rank() >= Role::RoleAdmin.rank()),
    {
        match self {
            Role::RoleUser => false,
            Role::RoleAdmin => true,
        }
    }
}

/// Every role holds the user permission, and administrator permission implies it.
pub proof fn lemma_admin_implies_user(role: Role)
    ensures
        role.rank() >= Role::RoleUser.rank(),
        role.rank() >= Role::RoleAdmin.rank() ==> role.rank() >= Role::RoleUser.rank(),
        role.rank() >= Role::RoleAdmin.rank() <==> role == Role::RoleAdmin,
{
}

} // verus!
