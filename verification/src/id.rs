use vstd::prelude::*;
use vstd::arithmetic::power::pow;

use crate::error::AppError;

verus! {

/// The identifier of a book: a 128-bit value, a UUID on the wire.
#[derive(Debug, Clone, Copy, PartialEq, Eq, Hash, Structural)]
pub struct BookId(pub u128);

/// The `position`-th hexadecimal digit of `raw`, counted from the most
/// significant one.
pub open spec fn hex_nibble(raw: u128, position: int) -> int {
    (raw as int / pow(16, (31 - position) as nat)) % 16
}

/// The text of an identifier: its 32 lower-case hexadecimal digits, most
/// significant first, without hyphens.
pub open spec fn simple_text(raw: u128) -> Seq<char> {
    Seq::new(32, |i: int| "0123456789abcdef"@[hex_nibble(raw, i)])
}

/// Whether a value is a random UUID as the standard lays it out: its
/// thirteenth hexadecimal digit, the version, is 4, and the two highest bits
/// of its seventeenth, the variant, are `10`. The other 122 bits are free.
pub open spec fn is_random_uuid(raw: u128) -> bool {
    hex_nibble(raw, 12) == 4 && 8 <= hex_nibble(raw, 16) < 12
}

/// The value that `uuid::Uuid::parse_str` reads from `text`, if it accepts it.
pub uninterp spec fn parsed_uuid(text: Seq<char>) -> Option<u128>;

/// `uuid::Error`: why a text was refused. Nothing is known of what it holds:
/// it only passes through.
#[verifier::external_type_specification]
#[verifier::external_body]
pub struct ExUuidError(uuid::Error);

/// `uuid::Uuid::new_v4`: a random identifier. Whatever the random bits
/// are, it sets the version to 4 and the variant to `10`; nothing more is
/// known of the value.
#[verifier::external_body]
fn random_uuid() -> (raw: u128)
    ensures
        is_random_uuid(raw),
{
    uuid::Uuid::new_v4().as_u128()
}

/// `uuid::fmt::Simple`'s `to_string`: the 32 lower-case hexadecimal digits of
/// the value, which `parse_str` reads back as the same value.
#[verifier::external_body]
fn uuid_to_text(raw: u128) -> (text: String)
    ensures
        text@ == simple_text(raw),
        parsed_uuid(text@) == Some(raw),
{
    uuid::Uuid::from_u128(raw).simple().to_string()
}

/// `uuid::Uuid::parse_str`: reads an identifier in any of the textual forms
/// of a UUID.
#[verifier::external_body]
fn parse_uuid(text: &str) -> (parsed: Result<u128, uuid::Error>)
    ensures
        match parsed {
            Ok(raw) => parsed_uuid(text@) == Some(raw),
            Err(_) => parsed_uuid(text@) is None,
        },
{
    match uuid::Uuid::parse_str(text) {
        Ok(id) => Ok(id.as_u128()),
        Err(e) => Err(e),
    }
}

/// `uuid::Error`'s `to_string`: why the text was refused.
#[verifier::external_body]
fn uuid_error_text(e: &uuid::Error) -> String {
    e.to_string()
}

/// The text of an identifier.
pub fn text_of(raw: u128) -> (text: String)
    ensures
        text@ == simple_text(raw),
        parsed_uuid(text@) == Some(raw),
{
    uuid_to_text(raw)
}

/// A fresh random token: the text of a random identifier.
pub fn fresh_token() -> (token: String)
    ensures
        exists|raw: u128|
            is_random_uuid(raw) && token@ == simple_text(raw) && parsed_uuid(token@) == Some(raw),
{
    uuid_to_text(random_uuid())
}

impl BookId {
    /// A fresh random identifier: a random UUID.
    pub fn new() -> (id: Self)
        ensures
            is_random_uuid(id.0),
    {
        BookId(random_uuid())
    }

    pub fn raw(self) -> (raw: u128)
        ensures
            raw == self.0,
    {
        self.0
    }

    /// Reads an identifier from text, in any of the textual forms of a UUID.
    pub fn from_str(text: &str) -> (parsed: Result<Self, AppError>)
        ensures
            match parsed {
                Ok(id) => parsed_uuid(text@) == Some(id.0),
                Err(e) => parsed_uuid(text@) is None && e is ConvertToUuidError,
            },
    {
        match parse_uuid(text) {
            Ok(raw) => Ok(BookId(raw)),
            Err(e) => Err(AppError::ConvertToUuidError(uuid_error_text(&e))),
        }
    }

    /// The identifier as text, which `from_str` reads back.
    pub fn to_string(&self) -> (text: String)
        ensures
            text@ == simple_text(self.0),
            parsed_uuid(text@) == Some(self.0),
    {
        uuid_to_text(self.0)
    }
}

/// The identifier of a user: a 128-bit value, a UUID on the wire.
#[derive(Debug, Clone, Copy, PartialEq, Eq, Hash, Structural)]
pub struct UserId(pub u128);

impl UserId {
    /// A fresh random identifier: a random UUID.
    pub fn new() -> (id: Self)
        ensures
            is_random_uuid(id.0),
    {
        UserId(random_uuid())
    }

    pub fn raw(self) -> (raw: u128)
        ensures
            raw == self.0,
    {
        self.0
    }

    /// Reads an identifier from text, in any of the textual forms of a UUID.
    pub fn from_str(text: &str) -> (parsed: Result<Self, AppError>)
        ensures
            match parsed {
                Ok(id) => parsed_uuid(text@) == Some(id.0),
                Err(e) => parsed_uuid(text@) is None && e is ConvertToUuidError,
            },
    {
        match parse_uuid(text) {
            Ok(raw) => Ok(UserId(raw)),
            Err(e) => Err(AppError::ConvertToUuidError(uuid_error_text(&e))),
        }
    }

    /// The identifier as text, which `from_str` reads back.
    pub fn to_string(&self) -> (text: String)
        ensures
            text@ == simple_text(self.0),
            parsed_uuid(text@) == Some(self.0),
    {
        uuid_to_text(self.0)
    }
}

/// The identifier of a loan: a 128-bit value, a UUID on the wire.
#[derive(Debug, Clone, Copy, PartialEq, Eq, Hash, Structural)]
pub struct CheckoutId(pub u128);

impl CheckoutId {
    /// A fresh random identifier: a random UUID.
    pub fn new() -> (id: Self)
        ensures
            is_random_uuid(id.0),
    {
        CheckoutId(random_uuid())
    }

    pub fn raw(self) -> (raw: u128)
        ensures
            raw == self.0,
    {
        self.0
    }

    /// Reads an identifier from text, in any of the textual forms of a UUID.
    pub fn from_str(text: &str) -> (parsed: Result<Self, AppError>)
        ensures
            match parsed {
                Ok(id) => parsed_uuid(text@) == Some(id.0),
                Err(e) => parsed_uuid(text@) is None && e is ConvertToUuidError,
            },
    {
        match parse_uuid(text) {
            Ok(raw) => Ok(CheckoutId(raw)),
            Err(e) => Err(AppError::ConvertToUuidError(uuid_error_text(&e))),
        }
    }

    /// The identifier as text, which `from_str` reads back.
    pub fn to_string(&self) -> (text: String)
        ensures
            text@ == simple_text(self.0),
            parsed_uuid(text@) == Some(self.0),
    {
        uuid_to_text(self.0)
    }
}

} // verus!
