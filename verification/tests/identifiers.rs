use rusty_book_manager::database::auth::{from, AuthorizationKey, AuthorizedUserId, UserItem};
use rusty_book_manager::error::AppError;
use rusty_book_manager::id::{fresh_token, BookId, CheckoutId, UserId};
use rusty_book_manager::model::auth::{AccessToken, CreateToken};

#[test]
fn an_identifier_prints_as_thirty_two_hexadecimal_digits() {
    let id = BookId(0x0123_4567_89ab_cdef_fedc_ba98_7654_3210);
    assert_eq!(id.to_string(), "0123456789abcdeffedcba9876543210");
    assert_eq!(UserId(0).to_string(), "00000000000000000000000000000000");
    assert_eq!(CheckoutId(u128::MAX).to_string(), "ffffffffffffffffffffffffffffffff");
    assert_eq!(id.raw(), 0x0123_4567_89ab_cdef_fedc_ba98_7654_3210);
}

#[test]
fn an_identifier_is_read_from_its_text() {
    let raw = 0x550e_8400_e29b_41d4_a716_4466_5544_0000u128;
    assert_eq!(BookId::from_str("550e8400e29b41d4a716446655440000"), Ok(BookId(raw)));
    assert_eq!(UserId::from_str("550e8400-e29b-41d4-a716-446655440000"), Ok(UserId(raw)));
    assert_eq!(CheckoutId::from_str("550E8400-E29B-41D4-A716-446655440000"), Ok(CheckoutId(raw)));
    assert_eq!(BookId::from_str(&BookId(raw).to_string()), Ok(BookId(raw)));
}

#[test]
fn text_that_is_no_identifier_is_refused() {
    for text in ["", "not-an-identifier", "550e8400e29b41d4a71644665544000", "zz0e8400e29b41d4a716446655440000"] {
        assert!(matches!(BookId::from_str(text), Err(AppError::ConvertToUuidError(_))));
        assert!(matches!(UserId::from_str(text), Err(AppError::ConvertToUuidError(_))));
        assert!(matches!(CheckoutId::from_str(text), Err(AppError::ConvertToUuidError(_))));
    }
    assert_eq!(
        BookId::from_str(""),
        Err(AppError::ConvertToUuidError("invalid length: found 0".to_string()))
    );
}

#[test]
fn fresh_identifiers_differ() {
    assert_ne!(BookId::new(), BookId::new());
    assert_ne!(UserId::new(), UserId::new());
    assert_ne!(CheckoutId::new(), CheckoutId::new());
}

#[test]
fn a_fresh_identifier_is_a_random_uuid() {
    for raw in [BookId::new().raw(), UserId::new().raw(), CheckoutId::new().raw()] {
        assert_eq!((raw >> 76) & 0xf, 4);
        assert_eq!((raw >> 62) & 0x3, 2);
    }
    let text = CheckoutId::new().to_string();
    assert_eq!(&text[12..13], "4");
    assert!(matches!(&text[16..17], "8" | "9" | "a" | "b"));
    let token = fresh_token();
    assert_eq!(&token[12..13], "4");
}

#[test]
fn a_fresh_token_is_the_text_of_an_identifier() {
    let token = fresh_token();
    assert_eq!(token.len(), 32);
    assert!(token.chars().all(|c| c.is_ascii_hexdigit() && !c.is_ascii_uppercase()));
    assert_ne!(token, fresh_token());
    let event = CreateToken::new(UserId(7));
    assert_eq!(event.user_id, UserId(7));
    assert_eq!(event.access_token.len(), 32);
    assert!(UserId::from_str(&event.access_token).is_ok());
}

#[test]
fn a_token_becomes_the_entry_of_the_token_store() {
    let event = CreateToken { user_id: UserId(7), access_token: "token".to_string() };
    let (key, value) = from(event);
    assert_eq!(key, AuthorizationKey("token".to_string()));
    assert_eq!(value, AuthorizedUserId(UserId(7)));
    assert_eq!(key.inner(), "token");
    assert_eq!(value.inner(), "00000000000000000000000000000007");
    assert_eq!(value.into_inner(), UserId(7));
    assert_eq!(AccessToken::from(key.clone()), AccessToken("token".to_string()));
    assert_eq!(AuthorizationKey::from(AccessToken("token".to_string())), key);
    assert_eq!(AuthorizationKey::of(&AccessToken("token".to_string())), key);
}

#[test]
fn the_user_of_a_session_is_read_back_from_the_token_store() {
    let value = AuthorizedUserId(UserId(0xfeed));
    assert_eq!(AuthorizedUserId::try_from(value.inner()), Ok(value));
    assert_eq!(
        AuthorizedUserId::try_from("garbage".to_string()),
        Err(AppError::ConversionEntityError("invalid character: found `g` at 0".to_string()))
    );
}

#[test]
fn a_user_item_holds_the_hash() {
    let item = UserItem { user_id: UserId(1), password_hash: "hash".to_string() };
    assert_eq!(item.clone(), item);
}
