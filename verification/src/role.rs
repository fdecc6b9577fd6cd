use vstd::prelude::*;
use vstd::string::*;

use crate::error::{AppError, ErrorView};
use crate::text::same_text;

verus! {

/// What a user may do.
#[derive(Debug, Clone, Copy, PartialEq, Eq, Hash, Structural)]
pub enum Role {
    /// May manage users.
    Admin,
    /// May manage books and borrow them.
    User,
}

/// The name under which the store keeps a role.
pub open spec fn role_name(role: Role) -> Seq<char> {
    match role {
        Role::Admin => "Admin"@,
        Role::User => "User"@,
    }
}

/// What is said of a name that is no role's.
pub open spec fn no_role_text() -> Seq<char> {
    "Matching variant not found"@
}

impl Default for Role {
    fn default() -> (role: Self)
        ensures
            role == Role::User,
    {
        Role::User
    }
}

impl Role {
    /// The name under which the store keeps the role.
    pub fn as_ref(&self) -> (name: &'static str)
        ensures
            name@ == role_name(*self),
    {
        match self {
            Role::Admin => "Admin",
            Role::User => "User",
        }
    }

    /// The role of that name, if it is a role's name.
    pub fn from_str(name: &str) -> (parsed: Result<Role, AppError>)
        ensures
            match parsed {
                Ok(role) => name@ == role_name(role),
                Err(e) => {
                    &&& name@ != role_name(Role::Admin)
                    &&& name@ != role_name(Role::User)
                    &&& e@ == ErrorView::ConversionEntityError(no_role_text())
                },
            },
    {
        if same_text(name, "Admin") {
            Ok(Role::Admin)
        } else if same_text(name, "User") {
            Ok(Role::User)
        } else {
            Err(AppError::ConversionEntityError(String::from_str("Matching variant not found")))
        }
    }
}

/// No two roles share a name, so a role's name is read back as that role.
pub proof fn law_role_names_are_distinct()
    ensures
        role_name(Role::Admin) != role_name(Role::User),
{
    reveal_strlit("Admin");
    reveal_strlit("User");
    assert("Admin"@.len() == 5);
    assert("User"@.len() == 4);
}

} // verus!
