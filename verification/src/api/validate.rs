//! The rules on the fields of a request, and the report of the fields that
//! break them.

use vstd::prelude::*;
use vstd::string::*;

use crate::error::{AppError, ErrorView};

verus! {

/// What `garde`'s rule `email` finds wrong with a text, or `None` if the
/// text is a well-formed address.
pub uninterp spec fn email_fault(text: Seq<char>) -> Option<Seq<char>>;

/// `garde::rules::email::apply`: holds a text against the rule for e-mail
/// addresses and says what is wrong with it, if anything is.
#[verifier::external_body]
fn check_email(text: &str) -> (fault: Option<String>)
    ensures
        match fault {
            Some(message) => email_fault(text@) == Some(message@),
            None => email_fault(text@) is None,
        },
{
    match garde::rules::email::apply(&text, ()) {
        Ok(()) => None,
        Err(e) => Some(e.message().to_string()),
    }
}

/// One line of a report: the field, and what is wrong with it.
pub open spec fn line(field: Seq<char>, message: Seq<char>) -> Seq<char> {
    field + ": "@ + message + "\n"@
}

/// The line on a field that must not be empty.
pub open spec fn empty_fault(field: Seq<char>, value: Seq<char>) -> Seq<char> {
    if value.len() == 0 {
        line(field, "length is lower than 1"@)
    } else {
        Seq::empty()
    }
}

/// The line on a field that must not be negative.
pub open spec fn negative_fault(field: Seq<char>, value: i64) -> Seq<char> {
    if value < 0 {
        line(field, "lower than 0"@)
    } else {
        Seq::empty()
    }
}

/// The line on a field that must hold an e-mail address.
pub open spec fn address_fault(field: Seq<char>, value: Seq<char>) -> Seq<char> {
    match email_fault(value) {
        Some(message) => line(field, message),
        None => Seq::empty(),
    }
}

/// What a report comes to: no line, and the request passes; else the
/// request is refused with the report.
pub open spec fn verdict_on(report: Seq<char>) -> Result<(), ErrorView> {
    if report.len() == 0 {
        Ok(())
    } else {
        Err(ErrorView::ValidationError(report))
    }
}

fn note(report: &mut String, field: &str, message: &str)
    ensures
        final(report)@ == old(report)@ + line(field@, message@),
{
    report.append(field);
    report.append(": ");
    report.append(message);
    report.append("\n");
    assert(report@ =~= old(report)@ + line(field@, message@));
}

/// Notes in the report that the field is empty, if it is.
pub fn require_filled(report: &mut String, field: &str, value: &str)
    ensures
        final(report)@ == old(report)@ + empty_fault(field@, value@),
{
    if value.is_empty() {
        note(report, field, "length is lower than 1");
    } else {
        assert(report@ =~= old(report)@ + empty_fault(field@, value@));
    }
}

/// Notes in the report that the field is negative, if it is.
pub fn require_not_negative(report: &mut String, field: &str, value: i64)
    ensures
        final(report)@ == old(report)@ + negative_fault(field@, value),
{
    if value < 0 {
        note(report, field, "lower than 0");
    } else {
        assert(report@ =~= old(report)@ + negative_fault(field@, value));
    }
}

/// Notes in the report what is wrong with the field as an e-mail address,
/// if anything is.
pub fn require_address(report: &mut String, field: &str, value: &str)
    ensures
        final(report)@ == old(report)@ + address_fault(field@, value@),
{
    match check_email(value) {
        Some(message) => {
            note(report, field, message.as_str());
        },
        None => {
            assert(report@ =~= old(report)@ + address_fault(field@, value@));
        },
    }
}

/// Ends a validation: the request passes if the report is empty.
pub fn conclude(report: String) -> (verdict: Result<(), AppError>)
    ensures
        match verdict {
            Ok(()) => verdict_on(report@) == Ok::<(), ErrorView>(()),
            Err(e) => verdict_on(report@) == Err::<(), _>(e@),
        },
{
    if report.as_str().is_empty() {
        Ok(())
    } else {
        Err(AppError::ValidationError(report))
    }
}

} // verus!
