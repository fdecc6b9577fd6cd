use vstd::prelude::*;

use crate::error::{AppError, ErrorView};
use crate::id::UserId;
use crate::model::user::User;
use crate::role::{law_role_names_are_distinct, no_role_text, role_name, Role};

verus! {

/// A user joined with the name of their role.
///
/// Times are microseconds since the Unix epoch, UTC.
#[derive(Debug, Clone, PartialEq, Eq)]
pub struct UserRow {
    pub user_id: UserId,
    pub name: String,
    pub email: String,
    pub role_name: String,
    pub created_at: i64,
    pub updated_at: i64,
}

/// The role that a row names, if it names one.
pub open spec fn role_of(row: UserRow) -> Option<Role> {
    if row.role_name@ == role_name(Role::Admin) {
        Some(Role::Admin)
    } else if row.role_name@ == role_name(Role::User) {
        Some(Role::User)
    } else {
        None
    }
}

/// The user that a row shows, if the row names a role.
pub open spec fn user_of(row: UserRow) -> Option<User> {
    match role_of(row) {
        Some(role) => Some(User { id: row.user_id, name: row.name, email: row.email, role }),
        None => None,
    }
}

/// The users that the rows show, in the rows' order; a row that names no
/// role shows none.
pub open spec fn users_of(rows: Seq<UserRow>) -> Seq<User> {
    rows.filter_map(|row: UserRow| user_of(row))
}

impl User {
    /// The user that a row shows. A row that names no role is refused.
    pub fn try_from(row: UserRow) -> (read: Result<User, AppError>)
        ensures
            match read {
                Ok(user) => user_of(row) == Some(user),
                Err(e) => user_of(row) is None && e@ == ErrorView::ConversionEntityError(
                    no_role_text(),
                ),
            },
    {
        proof {
            law_role_names_are_distinct();
        }
        match Role::from_str(row.role_name.as_str()) {
            Ok(role) => Ok(User { id: row.user_id, name: row.name, email: row.email, role }),
            Err(e) => Err(e),
        }
    }
}

/// The users that the rows show, in the rows' order, without the rows that
/// name no role.
pub fn users_from_rows(rows: Vec<UserRow>) -> (users: Vec<User>)
    ensures
        users@ == users_of(rows@),
{
    let mut users: Vec<User> = Vec::new();
    for row in it: rows
        invariant
            users@ == users_of(it.seq().take(it.index() as int)),
    {
        proof {
            let upto = it.seq().take(it.index() + 1);
            assert(upto.drop_last() =~= it.seq().take(it.index() as int));
            assert(upto.last() == row);
        }
        match User::try_from(row) {
            Ok(user) => {
                users.push(user);
            },
            Err(_) => {},
        }
        assert(users@ =~= users_of(it.seq().take(it.index() + 1)));
    }
    assert(rows@.take(rows@.len() as int) =~= rows@);
    users
}

} // verus!
