//! A user of the service.

use vstd::prelude::*;

verus! {

/// A stored user: the password is a bcrypt hash, the role a role name.
#[derive(Clone, Debug)]
pub struct User {
    pub id: i64,
    pub username: String,
    pub password: String,
    pub role: String,
}

impl User {
    /// The two users hold the same values.
    pub open spec fn same_as(self, other: User) -> bool {
        self.id == other.id && self.username@ == other.username@ && self.password@ == other.password@
            && self.role@ == other.role@
    }

    /// A copy of the user.
    pub fn duplicate(&self) -> (u: User)
        ensures
            u.same_as(*self),
            u.id == self.id,
            u.username@ == self.username@,
            u.password@ == self.password@,
            u.role@ == self.role@,
    {
        User {
            id: self.id,
            username: crate::text::to_owned_string(self.username.as_str()),
            password: crate::text::to_owned_string(self.password.as_str()),
            role: crate::text::to_owned_string(self.role.as_str()),
        }
    }
}

} // verus!
