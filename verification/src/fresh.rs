//! Sources of fresh identifiers and timestamps.
//!
//! These are the only places where the library touches the clock or the
//! random number generator. Every mutation rule is verified in a form that
//! takes the identifier or timestamp as an argument; the functions here
//! merely produce those arguments.

use vstd::prelude::*;
use vstd::string::StrSliceExecFns;

verus! {

/// Relies on `uuid::Uuid::new_v4` and its hyphenated `Display` form,
/// which is exactly 36 characters. The identifier is random: nothing is
/// promised beyond the length.
#[verifier::external_body]
fn uuid_v4_hyphenated() -> (r: String)
    ensures
        r@.len() == 36,
{
    uuid::Uuid::new_v4().to_string()
}

/// A fresh 8-character identifier: the first 8 characters of a UUID.
pub fn fresh_id() -> (r: String)
    ensures
        r@.len() == 8,
{
    let full = uuid_v4_hyphenated();
    let head = full.as_str().substring_char(0, 8);
    head.to_owned()
}

/// Relies on `chrono::Utc::now` and `DateTime::to_rfc3339`. The clock
/// decides the value, so nothing is promised of it.
#[verifier::external_body]
pub fn now_rfc3339() -> String {
    chrono::Utc::now().to_rfc3339()
}

/// Relies on `chrono::Utc::now` and `DateTime::format` with `"%Y-%m-%d"`,
/// the calendar date without a time of day. The clock decides the value,
/// so nothing is promised of it.
#[verifier::external_body]
pub fn today_ymd() -> String {
    chrono::Utc::now().format("%Y-%m-%d").to_string()
}

} // verus!
