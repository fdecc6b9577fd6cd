use rusty_book_manager::api::auth::{AccessTokenResponse, LoginRequest};
use rusty_book_manager::api::book::{
    default_limit, BookCheckoutResponse, BookListQuery, BookResponse, CreateBookRequest,
    PaginatedBookResponse, UpdateBookRequest, UpdateBookRequestWithIds, DEFAULT_LIMIT,
};
use rusty_book_manager::api::checkout::{CheckoutBookResponse, CheckoutResponse, CheckoutsResponse};
use rusty_book_manager::api::extractor::AuthorizedUser;
use rusty_book_manager::api::user::{
    CreateUserRequest, RoleName, UpdateUserPasswordRequest, UpdateUserPasswordRequestWithUserId,
    UpdateUserRoleRequest, UpdateUserRoleRequestWithUserId, UserResponse, UsersResponse,
};
use rusty_book_manager::database::book::{book_page, page_ids, page_total, BookRow, PaginatedBookRow};
use rusty_book_manager::database::checkout::{
    CheckoutRow, CheckoutStateRow, LoanRecord, ReturnRecord, ReturnedCheckoutRow,
};
use rusty_book_manager::database::user::{users_from_rows, UserRow};
use rusty_book_manager::env::{which, Environment};
use rusty_book_manager::error::{AppError, Surface};
use rusty_book_manager::id::{BookId, CheckoutId, UserId};
use rusty_book_manager::model::auth::AccessToken;
use rusty_book_manager::model::book::{
    Book, BookListOptions, CreateBook, DeleteBook, UpdateBook,
};
use rusty_book_manager::model::checkout::{Checkout, CheckoutBook};
use rusty_book_manager::model::list::PaginatedList;
use rusty_book_manager::model::user::{
    BookOwner, CheckoutUser, CreateUser, DeleteUser, UpdateUserPassword, UpdateUserRole, User,
};
use rusty_book_manager::repository::book::{book_written, found_book};
use rusty_book_manager::repository::user::{found_user, user_created, user_written};
use rusty_book_manager::role::Role;
use rusty_book_manager::text::same_text;

fn s(text: &str) -> String {
    text.to_string()
}

fn book_row(id: u128) -> BookRow {
    BookRow {
        book_id: BookId(id),
        title: s("Test Title"),
        author: s("Test Author"),
        isbn: s("Test ISBN"),
        description: s("Test Description"),
        owned_by: UserId(1),
        owner_name: s("Test User"),
    }
}

fn book_of(id: u128) -> Book {
    Book {
        id: BookId(id),
        title: s("Test Title"),
        author: s("Test Author"),
        isbn: s("Test ISBN"),
        description: s("Test Description"),
        owner: BookOwner { id: UserId(1), name: s("Test User") },
        checkout: None,
    }
}

fn user_row(id: u128, role: &str) -> UserRow {
    UserRow {
        user_id: UserId(id),
        name: s("Test User"),
        email: s("test@example.com"),
        role_name: s(role),
        created_at: 1,
        updated_at: 2,
    }
}

fn user_of(id: u128, role: Role) -> User {
    User { id: UserId(id), name: s("Test User"), email: s("test@example.com"), role }
}

#[test]
fn a_running_loan_row_becomes_a_checkout_without_a_return() {
    let row = CheckoutRow {
        checkout_id: CheckoutId(1),
        book_id: BookId(2),
        user_id: UserId(3),
        checked_out_at: 40,
        title: s("T"),
        author: s("A"),
        isbn: s("I"),
    };
    assert_eq!(
        Checkout::from(row),
        Checkout {
            id: CheckoutId(1),
            checked_out_by: UserId(3),
            checked_out_at: 40,
            returned_at: None,
            book: CheckoutBook { book_id: BookId(2), title: s("T"), author: s("A"), isbn: s("I") },
        }
    );
}

#[test]
fn a_returned_loan_row_becomes_a_checkout_with_its_return() {
    let row = ReturnedCheckoutRow {
        checkout_id: CheckoutId(1),
        book_id: BookId(2),
        user_id: UserId(3),
        checked_out_at: 40,
        returned_at: 50,
        title: s("T"),
        author: s("A"),
        isbn: s("I"),
    };
    assert_eq!(
        Checkout::from(row),
        Checkout {
            id: CheckoutId(1),
            checked_out_by: UserId(3),
            checked_out_at: 40,
            returned_at: Some(50),
            book: CheckoutBook { book_id: BookId(2), title: s("T"), author: s("A"), isbn: s("I") },
        }
    );
}

#[test]
fn a_loan_closes_into_a_history_row() {
    let loan = LoanRecord {
        checkout_id: CheckoutId(1),
        book_id: BookId(2),
        user_id: UserId(3),
        checked_out_at: 40,
    };
    assert_eq!(
        loan.close(50),
        ReturnRecord {
            checkout_id: CheckoutId(1),
            book_id: BookId(2),
            user_id: UserId(3),
            checked_out_at: 40,
            returned_at: 50,
        }
    );
    let state = CheckoutStateRow { book_id: BookId(2), checkout_id: None, user_id: None };
    assert_eq!(state.checkout_id, None);
}

#[test]
fn a_book_row_becomes_a_book_with_its_owner() {
    assert_eq!(Book::from(book_row(9)), book_of(9));
    assert_eq!(found_book(Some(book_row(9))), Some(book_of(9)));
    assert_eq!(found_book(None), None);
}

#[test]
fn a_page_tells_the_total_of_its_first_row() {
    let rows = vec![
        PaginatedBookRow { total: 57, id: BookId(3) },
        PaginatedBookRow { total: 57, id: BookId(1) },
        PaginatedBookRow { total: 57, id: BookId(2) },
    ];
    assert_eq!(page_total(&rows), 57);
    assert_eq!(page_ids(&rows), vec![BookId(3), BookId(1), BookId(2)]);
    assert_eq!(page_total(&vec![]), 0);
    assert_eq!(page_ids(&vec![]), vec![]);
}

#[test]
fn a_page_of_books_keeps_the_rows_in_order() {
    let options = BookListOptions { limit: 20, offset: 0 };
    let page = book_page(options, 1, vec![book_row(1)]);
    assert_eq!(1, page.items.len());
    assert_eq!(page.items[0].id, BookId(1));
    assert_eq!(page.items[0].title, "Test Title");
    assert_eq!(page.items[0].author, "Test Author");
    assert_eq!(page.items[0].isbn, "Test ISBN");
    assert_eq!(page.items[0].description, "Test Description");
    assert_eq!(page.items[0].owner.name, "Test User");

    let page = book_page(BookListOptions { limit: 2, offset: 4 }, 9, vec![book_row(5), book_row(6)]);
    assert_eq!(
        page,
        PaginatedList { total: 9, limit: 2, offset: 4, items: vec![book_of(5), book_of(6)] }
    );
    let shown = PaginatedBookResponse::from(page);
    assert_eq!((shown.total, shown.limit, shown.offset), (9, 2, 4));
    assert_eq!(shown.items, vec![BookResponse::from(book_of(5)), BookResponse::from(book_of(6))]);
}

#[test]
fn a_change_to_a_book_that_changed_no_row_found_no_book() {
    assert_eq!(book_written(1), Ok(()));
    assert_eq!(book_written(3), Ok(()));
    assert_eq!(
        book_written(0),
        Err(AppError::EntityNotFound(s("specified book not found")))
    );
}

#[test]
fn a_user_row_becomes_a_user_if_it_names_a_role() {
    assert_eq!(User::try_from(user_row(1, "Admin")), Ok(user_of(1, Role::Admin)));
    assert_eq!(User::try_from(user_row(2, "User")), Ok(user_of(2, Role::User)));
    assert_eq!(
        User::try_from(user_row(3, "admin")),
        Err(AppError::ConversionEntityError(s("Matching variant not found")))
    );
    assert_eq!(found_user(None), Ok(None));
    assert_eq!(found_user(Some(user_row(1, "Admin"))), Ok(Some(user_of(1, Role::Admin))));
    assert_eq!(
        found_user(Some(user_row(1, "Owner"))),
        Err(AppError::ConversionEntityError(s("Matching variant not found")))
    );
}

#[test]
fn rows_that_name_no_role_show_no_user() {
    let rows = vec![
        user_row(1, "User"),
        user_row(2, "Nobody"),
        user_row(3, "Admin"),
        user_row(4, ""),
    ];
    assert_eq!(users_from_rows(rows), vec![user_of(1, Role::User), user_of(3, Role::Admin)]);
    assert_eq!(users_from_rows(vec![]), vec![]);
}

#[test]
fn a_registration_that_wrote_a_row_gives_a_plain_user() {
    let event = CreateUser { name: s("N"), email: s("e@x.io"), password: s("p") };
    assert_eq!(
        user_created(event.clone(), UserId(4), 1),
        Ok(User { id: UserId(4), name: s("N"), email: s("e@x.io"), role: Role::User })
    );
    assert_eq!(
        user_created(event, UserId(4), 0),
        Err(AppError::NoRowsAffectedError(s("no user has been created")))
    );
    assert_eq!(user_written(1), Ok(()));
    assert_eq!(user_written(0), Err(AppError::EntityNotFound(s("specified user not found"))));
}

#[test]
fn roles_have_names() {
    assert_eq!(Role::Admin.as_ref(), "Admin");
    assert_eq!(Role::User.as_ref(), "User");
    assert_eq!(Role::from_str("Admin"), Ok(Role::Admin));
    assert_eq!(Role::from_str("User"), Ok(Role::User));
    assert_eq!(
        Role::from_str("user"),
        Err(AppError::ConversionEntityError(s("Matching variant not found")))
    );
    assert_eq!(Role::default(), Role::User);
    assert_eq!(RoleName::from(Role::Admin), RoleName::Admin);
    assert_eq!(RoleName::from(Role::User), RoleName::User);
    assert_eq!(Role::from(RoleName::Admin), Role::Admin);
    assert_eq!(Role::from(RoleName::User), Role::User);
}

#[test]
fn same_text_compares_character_by_character() {
    assert!(same_text("Admin", "Admin"));
    assert!(!same_text("Admin", "admin"));
    assert!(!same_text("Admin", "Admin "));
    assert!(same_text("", ""));
}

#[test]
fn the_environment_is_the_variable_s_or_else_the_build_s() {
    assert_eq!(which(None, true), Environment::Development);
    assert_eq!(which(None, false), Environment::Production);
    assert_eq!(which(Some(s("development")), false), Environment::Development);
    assert_eq!(which(Some(s("production")), true), Environment::Production);
    assert_eq!(which(Some(s("staging")), true), Environment::Development);
    assert_eq!(which(Some(s("staging")), false), Environment::Production);
    assert_eq!(which(Some(s("Production")), true), Environment::Development);
    assert_eq!(Environment::from_str("production"), Some(Environment::Production));
    assert_eq!(Environment::from_str(""), None);
    assert_eq!(Environment::default(), Environment::Development);
    assert_eq!(Environment::Development.log_level(), "debug");
    assert_eq!(Environment::Production.log_level(), "info");
}

#[test]
fn errors_show_to_the_client_by_their_kind() {
    let cases = [
        (AppError::UnprocessableEntity(s("m")), Surface::Unprocessable, 422),
        (AppError::EntityNotFound(s("m")), Surface::NotFound, 404),
        (AppError::ValidationError(s("m")), Surface::BadRequest, 400),
        (AppError::ConvertToUuidError(s("m")), Surface::BadRequest, 400),
        (AppError::TransactionError(s("m")), Surface::ServerFailure, 500),
        (AppError::SpecificOperationError(s("m")), Surface::ServerFailure, 500),
        (AppError::NoRowsAffectedError(s("m")), Surface::ServerFailure, 500),
        (AppError::KeyValueStoreError(s("m")), Surface::ServerFailure, 500),
        (AppError::BcryptError(s("m")), Surface::ServerFailure, 500),
        (AppError::ConversionEntityError(s("m")), Surface::ServerFailure, 500),
        (AppError::UnauthenticatedError, Surface::Forbidden, 403),
        (AppError::UnauthorizedError, Surface::Unauthorized, 401),
        (AppError::ForbiddenOperation, Surface::Forbidden, 403),
    ];
    for (error, surface, code) in cases {
        assert_eq!(error.surface(), surface);
        assert_eq!(error.surface().status_code(), code);
    }
    assert_eq!(AppError::EntityNotFound(s("gone")).to_string(), "gone");
    assert_eq!(AppError::ForbiddenOperation.to_string(), "the operation is forbidden");
    assert_eq!(AppError::UnauthorizedError.to_string(), "the credentials were refused");
    assert_eq!(AppError::UnauthenticatedError.to_string(), "no valid credentials were given");
}

#[test]
fn a_book_request_must_name_title_author_and_isbn() {
    let request = CreateBookRequest {
        title: s("Title"),
        author: s("Author"),
        isbn: s("ISBN"),
        description: s(""),
    };
    assert_eq!(request.validate(), Ok(()));
    assert_eq!(
        CreateBook::from(request),
        CreateBook { title: s("Title"), author: s("Author"), isbn: s("ISBN"), description: s("") }
    );
    let request =
        CreateBookRequest { title: s(""), author: s("Author"), isbn: s(""), description: s("d") };
    assert_eq!(
        request.validate(),
        Err(AppError::ValidationError(s(
            "title: length is lower than 1\nisbn: length is lower than 1\n"
        )))
    );
    let request =
        UpdateBookRequest { title: s("T"), author: s(""), isbn: s("I"), description: s("d") };
    assert_eq!(
        request.validate(),
        Err(AppError::ValidationError(s("author: length is lower than 1\n")))
    );
    let request =
        UpdateBookRequest { title: s("T"), author: s("A"), isbn: s("I"), description: s("d") };
    assert_eq!(request.validate(), Ok(()));
    assert_eq!(
        UpdateBook::from(UpdateBookRequestWithIds::new(BookId(1), UserId(2), request)),
        UpdateBook {
            book_id: BookId(1),
            title: s("T"),
            author: s("A"),
            isbn: s("I"),
            description: s("d"),
            requested_user: UserId(2),
        }
    );
    let delete = DeleteBook { book_id: BookId(1), requested_user: UserId(2) };
    assert_eq!(delete.book_id, BookId(1));
}

#[test]
fn a_page_is_twenty_books_from_the_start_unless_the_request_says() {
    assert_eq!(DEFAULT_LIMIT, 20);
    assert_eq!(default_limit(), 20);
    assert_eq!(BookListQuery::of(None, None), BookListQuery { limit: 20, offset: 0 });
    assert_eq!(BookListQuery::of(Some(50), None), BookListQuery { limit: 50, offset: 0 });
    assert_eq!(BookListQuery::of(Some(50), Some(20)), BookListQuery { limit: 50, offset: 20 });
    assert_eq!(BookListQuery::of(None, Some(20)), BookListQuery { limit: 20, offset: 20 });
    assert_eq!(
        BookListOptions::from(BookListQuery { limit: 50, offset: 20 }),
        BookListOptions { limit: 50, offset: 20 }
    );
}

#[test]
fn a_page_has_no_negative_limit_or_offset() {
    assert_eq!(BookListQuery { limit: 0, offset: 0 }.validate(), Ok(()));
    assert_eq!(
        BookListQuery { limit: -1, offset: 0 }.validate(),
        Err(AppError::ValidationError(s("limit: lower than 0\n")))
    );
    assert_eq!(
        BookListQuery { limit: -1, offset: i64::MIN }.validate(),
        Err(AppError::ValidationError(s("limit: lower than 0\noffset: lower than 0\n")))
    );
}

#[test]
fn a_registration_must_name_a_user_with_an_address_and_a_password() {
    let request =
        CreateUserRequest { name: s("Test User"), email: s("test@example.com"), password: s("p") };
    assert_eq!(request.validate(), Ok(()));
    assert_eq!(
        CreateUser::from(request),
        CreateUser { name: s("Test User"), email: s("test@example.com"), password: s("p") }
    );
    let request = CreateUserRequest { name: s(""), email: s("no-at-sign"), password: s("") };
    assert_eq!(
        request.validate(),
        Err(AppError::ValidationError(s(
            "name: length is lower than 1\nemail: not a valid email: value is missing `@`\n\
             password: length is lower than 1\n"
        )))
    );
    let request = CreateUserRequest { name: s("n"), email: s(""), password: s("p") };
    assert_eq!(
        request.validate(),
        Err(AppError::ValidationError(s("email: not a valid email: value is empty\n")))
    );
    let request = CreateUserRequest { name: s("n"), email: s("a b@example.com"), password: s("p") };
    assert_eq!(
        request.validate(),
        Err(AppError::ValidationError(s(
            "email: not a valid email: user contains unexpected characters\n"
        )))
    );
}

#[test]
fn a_change_of_password_names_both_passwords() {
    let request = UpdateUserPasswordRequest { current_password: s("old"), new_password: s("new") };
    assert_eq!(request.validate(), Ok(()));
    assert_eq!(
        UpdateUserPassword::from(UpdateUserPasswordRequestWithUserId::new(UserId(3), request)),
        UpdateUserPassword { user_id: UserId(3), current_password: s("old"), new_password: s("new") }
    );
    let request = UpdateUserPasswordRequest { current_password: s(""), new_password: s("") };
    assert_eq!(
        request.validate(),
        Err(AppError::ValidationError(s(
            "current_password: length is lower than 1\nnew_password: length is lower than 1\n"
        )))
    );
}

#[test]
fn a_change_of_role_names_the_user_and_the_role() {
    let request = UpdateUserRoleRequest { role: RoleName::Admin };
    assert_eq!(
        UpdateUserRole::from(UpdateUserRoleRequestWithUserId::new(UserId(3), request)),
        UpdateUserRole { user_id: UserId(3), role: Role::Admin }
    );
    let delete = DeleteUser { user_id: UserId(3) };
    assert_eq!(delete.user_id, UserId(3));
}

#[test]
fn users_go_over_the_wire_with_the_name_of_their_role() {
    assert_eq!(
        UserResponse::from(user_of(1, Role::Admin)),
        UserResponse {
            id: UserId(1),
            name: s("Test User"),
            email: s("test@example.com"),
            role: RoleName::Admin,
        }
    );
    let shown = UsersResponse::of(vec![user_of(1, Role::Admin), user_of(2, Role::User)]);
    assert_eq!(
        shown.users,
        vec![UserResponse::from(user_of(1, Role::Admin)), UserResponse::from(user_of(2, Role::User))]
    );
}

#[test]
fn books_go_over_the_wire_with_owner_and_running_loan() {
    let mut book = book_of(1);
    book.checkout = Some(rusty_book_manager::model::book::Checkout {
        checkout_id: CheckoutId(7),
        checked_out_by: CheckoutUser { id: UserId(8), name: s("Holder") },
        checked_out_at: 99,
    });
    let shown = BookResponse::from(book.clone());
    assert_eq!(shown.id, BookId(1));
    assert_eq!(shown.owner, rusty_book_manager::api::user::BookOwner { id: UserId(1), name: s("Test User") });
    assert_eq!(
        shown.checkout,
        Some(BookCheckoutResponse {
            id: CheckoutId(7),
            checked_out_by: rusty_book_manager::api::user::CheckoutUser {
                id: UserId(8),
                name: s("Holder"),
            },
            checked_out_at: 99,
        })
    );
    assert_eq!(BookResponse::of(Some(book)), Ok(shown));
    assert_eq!(
        BookResponse::of(None),
        Err(AppError::EntityNotFound(s("the specified book was not found")))
    );
    assert_eq!(BookResponse::from(book_of(2)).checkout, None);
}

#[test]
fn loans_go_over_the_wire_with_their_book() {
    let checkout = Checkout {
        id: CheckoutId(1),
        checked_out_by: UserId(3),
        checked_out_at: 40,
        returned_at: Some(50),
        book: CheckoutBook { book_id: BookId(2), title: s("T"), author: s("A"), isbn: s("I") },
    };
    let shown = CheckoutResponse {
        id: CheckoutId(1),
        checked_out_by: UserId(3),
        checked_out_at: 40,
        returned_at: Some(50),
        book: CheckoutBookResponse { id: BookId(2), title: s("T"), author: s("A"), isbn: s("I") },
    };
    assert_eq!(CheckoutResponse::from(checkout.clone()), shown);
    assert_eq!(CheckoutsResponse::from(vec![checkout.clone(), checkout]).items, vec![shown.clone(), shown]);
    assert_eq!(CheckoutsResponse::from(vec![]).items, vec![]);
}

#[test]
fn a_login_goes_over_the_wire() {
    let request = LoginRequest { email: s("test@example.com"), password: s("test_password") };
    assert_eq!(request.email, "test@example.com");
    assert_eq!(
        AccessTokenResponse::new(UserId(1), AccessToken(s("token"))),
        AccessTokenResponse { user_id: UserId(1), access_token: s("token") }
    );
}

#[test]
fn a_request_runs_on_behalf_of_the_user_of_its_token() {
    let token = AccessToken(s("token"));
    assert_eq!(AuthorizedUser::token_of(Some(s("token"))), Ok(token.clone()));
    assert_eq!(AuthorizedUser::token_of(None), Err(AppError::UnauthorizedError));
    assert_eq!(AuthorizedUser::session_of(Some(UserId(1))), Ok(UserId(1)));
    assert_eq!(AuthorizedUser::session_of(None), Err(AppError::UnauthenticatedError));
    assert_eq!(AuthorizedUser::of(token.clone(), None), Err(AppError::UnauthenticatedError));

    let admin = AuthorizedUser::of(token.clone(), Some(user_of(1, Role::Admin))).unwrap();
    assert_eq!(admin.id(), UserId(1));
    assert!(admin.is_admin());
    assert_eq!(admin.require_admin(), Ok(()));
    assert_eq!(admin.access_token, token);

    let plain = AuthorizedUser::of(token, Some(user_of(2, Role::User))).unwrap();
    assert_eq!(plain.id(), UserId(2));
    assert!(!plain.is_admin());
    assert_eq!(plain.require_admin(), Err(AppError::ForbiddenOperation));
}

#[test]
fn test_sub_of_nothing() {
    assert_eq!(rusty_book_manager::arith::sub(10, 0), 10);
}

#[test]
fn test_sub_of_five() {
    assert_eq!(rusty_book_manager::arith::sub(100, 5), 95);
}

#[test]
fn test_sub_at_the_ends() {
    assert_eq!(rusty_book_manager::arith::sub(i32::MIN, 0), i32::MIN);
    assert_eq!(rusty_book_manager::arith::sub(i32::MAX, i32::MAX), 0);
    assert_eq!(rusty_book_manager::arith::sub(-1, i32::MAX), i32::MIN);
    assert_eq!(rusty_book_manager::arith::sub(0, -i32::MAX), i32::MAX);
}
