//! The signed-in operator: role ladder and identity.
use vstd::prelude::*;

verus! {

/// Operator roles, lowest to highest.
#[derive(Debug, Clone, Copy, PartialEq, Eq, Structural)]
pub enum Role {
    User,
    Staff,
    Supervisor,
    Administrator,
    Developer,
}

/// The persisted lowercase name of each role.
pub open spec fn role_name(r: Role) -> Seq<char> {
    match r {
        Role::User => "user"@,
        Role::Staff => "staff"@,
        Role::Supervisor => "supervisor"@,
        Role::Administrator => "administrator"@,
        Role::Developer => "developer"@,
    }
}

impl Role {
    /// Stable lowercase name, as stored in the `role` column.
    pub fn as_str(self) -> (s: &'static str)
        ensures
            s@ == role_name(self),
    {
        match self {
            Role::User => "user",
            Role::Staff => "staff",
            Role::Supervisor => "supervisor",
            Role::Administrator => "administrator",
            Role::Developer => "developer",
        }
    }
}

/// Who is acting: the signed-in operator.
#[derive(Debug, Clone)]
pub struct Identity {
    pub user_id: i64,
    pub email: String,
    pub role: Role,
}

} // verus!
