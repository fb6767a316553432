//! HTTP statuses as they are written out.

use vstd::prelude::*;
use reqwest::StatusCode;
use crate::utils::text::{decimal, opt_text, unsigned_to_string};

verus! {

/// The reason phrase that `StatusCode::canonical_reason` of reqwest gives
/// for a status; `None` where it has none, or the number is no status.
pub uninterp spec fn reason_phrase(status: u16) -> Option<Seq<char>>;

/// `StatusCode::canonical_reason` of reqwest, on the status that
/// `StatusCode::from_u16` makes of the number.
#[verifier::external_body]
pub(crate) fn canonical_reason(status: u16) -> (phrase: Option<String>)
    ensures
        opt_text(phrase) == reason_phrase(status),
{
    match StatusCode::from_u16(status) {
        Ok(code) => match code.canonical_reason() {
            Some(phrase) => Some(phrase.to_string()),
            None => None,
        },
        Err(_) => None,
    }
}

/// A status as it is written out: the number, a space, and the reason
/// phrase or a note that there is none.
pub open spec fn status_text(status: u16) -> Seq<char> {
    decimal(status as nat) + " "@ + match reason_phrase(status) {
        Some(phrase) => phrase,
        None => "<unknown status code>"@,
    }
}

/// Writes a status out: the number, then its reason phrase.
pub fn status_line(status: u16) -> (line: String)
    ensures
        line@ == status_text(status),
{
    let mut line = unsigned_to_string(status as u128);
    line.append(" ");
    match canonical_reason(status) {
        Some(phrase) => line.append(phrase.as_str()),
        None => line.append("<unknown status code>"),
    }
    line
}

} // verus!
