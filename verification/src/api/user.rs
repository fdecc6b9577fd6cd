use vstd::prelude::*;
use vstd::std_specs::convert::FromSpecImpl;
use vstd::string::*;

use crate::api::validate::{
    address_fault, conclude, empty_fault, require_address, require_filled,
};
use crate::error::{AppError, ErrorView};
use crate::id::UserId;
use crate::model::user::{CreateUser, UpdateUserPassword, UpdateUserRole, User};
use crate::role::Role;

verus! {

/// A role as it goes over the wire.
#[derive(Debug, Clone, Copy, PartialEq, Eq, Structural)]
pub enum RoleName {
    Admin,
    User,
}

impl From<Role> for RoleName {
    fn from(value: Role) -> (name: Self) {
        match value {
            Role::Admin => RoleName::Admin,
            Role::User => RoleName::User,
        }
    }
}

impl FromSpecImpl<Role> for RoleName {
    open spec fn obeys_from_spec() -> bool {
        true
    }

    open spec fn from_spec(value: Role) -> Self {
        match value {
            Role::Admin => RoleName::Admin,
            Role::User => RoleName::User,
        }
    }
}

impl From<RoleName> for Role {
    fn from(value: RoleName) -> (role: Self) {
        match value {
            RoleName::Admin => Role::Admin,
            RoleName::User => Role::User,
        }
    }
}

impl FromSpecImpl<RoleName> for Role {
    open spec fn obeys_from_spec() -> bool {
        true
    }

    open spec fn from_spec(value: RoleName) -> Self {
        match value {
            RoleName::Admin => Role::Admin,
            RoleName::User => Role::User,
        }
    }
}

/// The owner of a book as it goes over the wire.
#[derive(Debug, Clone, PartialEq, Eq)]
pub struct BookOwner {
    pub id: UserId,
    pub name: String,
}

impl From<crate::model::user::BookOwner> for BookOwner {
    fn from(value: crate::model::user::BookOwner) -> (owner: Self) {
        BookOwner { id: value.id, name: value.name }
    }
}

impl FromSpecImpl<crate::model::user::BookOwner> for BookOwner {
    open spec fn obeys_from_spec() -> bool {
        true
    }

    open spec fn from_spec(value: crate::model::user::BookOwner) -> Self {
        BookOwner { id: value.id, name: value.name }
    }
}

/// The users of the library as they go over the wire.
#[derive(Debug, Clone, PartialEq, Eq)]
pub struct UsersResponse {
    pub users: Vec<UserResponse>,
}

/// A user as it goes over the wire.
#[derive(Debug, Clone, PartialEq, Eq)]
pub struct UserResponse {
    pub id: UserId,
    pub name: String,
    pub email: String,
    pub role: RoleName,
}

/// A user as the wire shows it.
pub open spec fn shown_user(user: User) -> UserResponse {
    UserResponse {
        id: user.id,
        name: user.name,
        email: user.email,
        role: match user.role {
            Role::Admin => RoleName::Admin,
            Role::User => RoleName::User,
        },
    }
}

impl From<User> for UserResponse {
    fn from(value: User) -> (response: Self) {
        UserResponse {
            id: value.id,
            name: value.name,
            email: value.email,
            role: RoleName::from(value.role),
        }
    }
}

impl FromSpecImpl<User> for UserResponse {
    open spec fn obeys_from_spec() -> bool {
        true
    }

    open spec fn from_spec(value: User) -> Self {
        shown_user(value)
    }
}

impl UsersResponse {
    /// The users as the wire shows them, in their order.
    pub fn of(users: Vec<User>) -> (response: Self)
        ensures
            response.users@ == Seq::new(users@.len(), |i: int| shown_user(users@[i])),
    {
        let mut responses: Vec<UserResponse> = Vec::new();
        for user in it: users
            invariant
                responses@ == Seq::new(it.index() as nat, |i: int| shown_user(it.seq()[i])),
        {
            responses.push(UserResponse::from(user));
            assert(responses@ =~= Seq::new(
                (it.index() + 1) as nat,
                |i: int| shown_user(it.seq()[i]),
            ));
        }
        assert(responses@ =~= Seq::new(users@.len(), |i: int| shown_user(users@[i])));
        UsersResponse { users: responses }
    }
}

/// The body of a change of password.
#[derive(Debug, Clone, PartialEq, Eq)]
pub struct UpdateUserPasswordRequest {
    pub current_password: String,
    pub new_password: String,
}

impl UpdateUserPasswordRequest {
    /// Holds the body against its rules: neither password may be empty.
    pub fn validate(&self) -> (verdict: Result<(), AppError>)
        ensures
            match verdict {
                Ok(()) => self.faults().len() == 0,
                Err(e) => self.faults().len() > 0 && e@ == ErrorView::ValidationError(
                    self.faults(),
                ),
            },
    {
        let mut report = String::new();
        require_filled(&mut report, "current_password", self.current_password.as_str());
        require_filled(&mut report, "new_password", self.new_password.as_str());
        assert(report@ =~= self.faults());
        conclude(report)
    }

    /// The report on the body: a line for each field that breaks its rule.
    pub open spec fn faults(&self) -> Seq<char> {
        empty_fault("current_password"@, self.current_password@) + empty_fault(
            "new_password"@,
            self.new_password@,
        )
    }
}

/// A change of password with the user whose password it is.
#[derive(Debug, Clone, PartialEq, Eq)]
pub struct UpdateUserPasswordRequestWithUserId(pub UserId, pub UpdateUserPasswordRequest);

impl UpdateUserPasswordRequestWithUserId {
    pub fn new(user_id: UserId, request: UpdateUserPasswordRequest) -> (with_id: Self)
        ensures
            with_id == UpdateUserPasswordRequestWithUserId(user_id, request),
    {
        UpdateUserPasswordRequestWithUserId(user_id, request)
    }
}

impl From<UpdateUserPasswordRequestWithUserId> for UpdateUserPassword {
    fn from(value: UpdateUserPasswordRequestWithUserId) -> (event: Self) {
        UpdateUserPassword {
            user_id: value.0,
            current_password: value.1.current_password,
            new_password: value.1.new_password,
        }
    }
}

impl FromSpecImpl<UpdateUserPasswordRequestWithUserId> for UpdateUserPassword {
    open spec fn obeys_from_spec() -> bool {
        true
    }

    open spec fn from_spec(value: UpdateUserPasswordRequestWithUserId) -> Self {
        UpdateUserPassword {
            user_id: value.0,
            current_password: value.1.current_password,
            new_password: value.1.new_password,
        }
    }
}

/// The body of a registration.
#[derive(Debug, Clone, PartialEq, Eq)]
pub struct CreateUserRequest {
    pub name: String,
    pub email: String,
    pub password: String,
}

impl CreateUserRequest {
    /// Holds the body against its rules: the name and the password may not
    /// be empty, and the e-mail address must be one.
    pub fn validate(&self) -> (verdict: Result<(), AppError>)
        ensures
            match verdict {
                Ok(()) => self.faults().len() == 0,
                Err(e) => self.faults().len() > 0 && e@ == ErrorView::ValidationError(
                    self.faults(),
                ),
            },
    {
        let mut report = String::new();
        require_filled(&mut report, "name", self.name.as_str());
        require_address(&mut report, "email", self.email.as_str());
        require_filled(&mut report, "password", self.password.as_str());
        assert(report@ =~= self.faults());
        conclude(report)
    }

    /// The report on the body: a line for each field that breaks its rule.
    pub open spec fn faults(&self) -> Seq<char> {
        empty_fault("name"@, self.name@) + address_fault("email"@, self.email@) + empty_fault(
            "password"@,
            self.password@,
        )
    }
}

impl From<CreateUserRequest> for CreateUser {
    fn from(value: CreateUserRequest) -> (event: Self) {
        CreateUser { name: value.name, email: value.email, password: value.password }
    }
}

impl FromSpecImpl<CreateUserRequest> for CreateUser {
    open spec fn obeys_from_spec() -> bool {
        true
    }

    open spec fn from_spec(value: CreateUserRequest) -> Self {
        CreateUser { name: value.name, email: value.email, password: value.password }
    }
}

/// The body of a change of role.
#[derive(Debug, Clone, Copy, PartialEq, Eq, Structural)]
pub struct UpdateUserRoleRequest {
    pub role: RoleName,
}

/// A change of role with the user whose role it is.
#[derive(Debug, Clone, Copy, PartialEq, Eq, Structural)]
pub struct UpdateUserRoleRequestWithUserId(pub UserId, pub UpdateUserRoleRequest);

impl UpdateUserRoleRequestWithUserId {
    pub fn new(user_id: UserId, request: UpdateUserRoleRequest) -> (with_id: Self)
        ensures
            with_id == UpdateUserRoleRequestWithUserId(user_id, request),
    {
        UpdateUserRoleRequestWithUserId(user_id, request)
    }
}

impl From<UpdateUserRoleRequestWithUserId> for UpdateUserRole {
    fn from(value: UpdateUserRoleRequestWithUserId) -> (event: Self) {
        UpdateUserRole { user_id: value.0, role: Role::from(value.1.role) }
    }
}

impl FromSpecImpl<UpdateUserRoleRequestWithUserId> for UpdateUserRole {
    open spec fn obeys_from_spec() -> bool {
        true
    }

    open spec fn from_spec(value: UpdateUserRoleRequestWithUserId) -> Self {
        UpdateUserRole {
            user_id: value.0,
            role: match value.1.role {
                RoleName::Admin => Role::Admin,
                RoleName::User => Role::User,
            },
        }
    }
}

/// The holder of a book as it goes over the wire.
#[derive(Debug, Clone, PartialEq, Eq)]
pub struct CheckoutUser {
    pub id: UserId,
    pub name: String,
}

impl From<crate::model::user::CheckoutUser> for CheckoutUser {
    fn from(value: crate::model::user::CheckoutUser) -> (holder: Self) {
        CheckoutUser { id: value.id, name: value.name }
    }
}

impl FromSpecImpl<crate::model::user::CheckoutUser> for CheckoutUser {
    open spec fn obeys_from_spec() -> bool {
        true
    }

    open spec fn from_spec(value: crate::model::user::CheckoutUser) -> Self {
        CheckoutUser { id: value.id, name: value.name }
    }
}

} // verus!
