//! The lines that frame the outcome of each credential in the report.

use vstd::prelude::*;
use crate::utils::enums::{ApiError, ApiErrorView};
use crate::utils::status::{status_line, status_text};
use crate::utils::text::{decimal, unsigned_to_string};
use crate::utils::{masked, Utils};

verus! {

/// The line that closes the outcome of each credential.
pub const RESULT_FOOTER: &'static str = "----------------------------------------\n";

/// The line that opens the outcome of a credential: its number in the
/// report, counted from one, its place in the input, counted from one, and
/// the credential, hidden in part where `mask_token` asks for it.
pub open spec fn header_text(
    counter: usize,
    index: usize,
    token: Seq<char>,
    mask_token: bool,
) -> Seq<char> {
    "--- Result #"@ + decimal(counter as nat) + " (Input Index: "@ + decimal((index + 1) as nat)
        + ") ["@ + if mask_token {
        masked(token)
    } else {
        token
    } + "] ---"@
}

/// What the report says of a check that failed.
pub open spec fn failure_text(error: ApiErrorView) -> Seq<char> {
    " -> Error: "@ + match error {
        ApiErrorView::Unauthorized(body) => "Token is invalid or expired. "@ + body.message,
        ApiErrorView::RateLimited(_) =>
            "Rate Limited (429) after retries on initial check (/users/@me). Cannot proceed."@,
        ApiErrorView::RequestError(fault) => "Network error after retries: "@ + fault.detail,
        ApiErrorView::ParseError(detail) => "Failed to parse Discord response: "@ + detail,
        ApiErrorView::UnexpectedStatus(status, body) => "Discord returned unexpected status "@
            + status_text(status) + ". Body: "@ + body,
        ApiErrorView::ClientBuildError(fault) => "Failed to build HTTP client: "@ + fault.detail,
        ApiErrorView::IoError(detail) => "I/O error: "@ + detail,
    }
}

/// What the report says of a task that broke off: its number among the
/// tasks, counted from one, and the reason.
pub open spec fn join_error_text(index: usize, why: Seq<char>) -> Seq<char> {
    " -> Task for input index #"@ + decimal((index + 1) as nat) + " failed: "@ + why
}

/// Writes the line that opens the outcome of a credential.
pub fn result_header(counter: usize, index: usize, token: &str, mask_token: bool) -> (line: String)
    ensures
        line@ == header_text(counter, index, token@, mask_token),
{
    let mut line = String::from_str("--- Result #");
    let number = unsigned_to_string(counter as u128);
    line.append(number.as_str());
    line.append(" (Input Index: ");
    let place = unsigned_to_string(index as u128 + 1);
    line.append(place.as_str());
    line.append(") [");
    if mask_token {
        let hidden = Utils::mask_last_part(token);
        line.append(hidden.as_str());
    } else {
        line.append(token);
    }
    line.append("] ---");
    line
}

/// Writes what the report says of a check that failed.
pub fn describe_failure(error: &ApiError) -> (line: String)
    ensures
        line@ == failure_text(error@),
{
    let mut line = String::from_str(" -> Error: ");
    match error {
        ApiError::Unauthorized(body) => {
            let mut said = String::from_str("Token is invalid or expired. ");
            said.append(body.message.as_str());
            line.append(said.as_str());
        },
        ApiError::RateLimited(_) => {
            line.append(
                "Rate Limited (429) after retries on initial check (/users/@me). Cannot proceed.",
            );
        },
        ApiError::RequestError(fault) => {
            let mut said = String::from_str("Network error after retries: ");
            said.append(fault.detail.as_str());
            line.append(said.as_str());
        },
        ApiError::ParseError(fault) => {
            let mut said = String::from_str("Failed to parse Discord response: ");
            said.append(fault.detail.as_str());
            line.append(said.as_str());
        },
        ApiError::UnexpectedStatus(status, body) => {
            let mut said = String::from_str("Discord returned unexpected status ");
            let written = status_line(*status);
            said.append(written.as_str());
            said.append(". Body: ");
            said.append(body.as_str());
            line.append(said.as_str());
        },
        ApiError::ClientBuildError(fault) => {
            let mut said = String::from_str("Failed to build HTTP client: ");
            said.append(fault.detail.as_str());
            line.append(said.as_str());
        },
        ApiError::IoError(fault) => {
            let mut said = String::from_str("I/O error: ");
            said.append(fault.detail.as_str());
            line.append(said.as_str());
        },
    }
    line
}

/// Writes what the report says of a task that broke off.
pub fn describe_join_error(index: usize, why: &str) -> (line: String)
    ensures
        line@ == join_error_text(index, why@),
{
    let mut line = String::from_str(" -> Task for input index #");
    let place = unsigned_to_string(index as u128 + 1);
    line.append(place.as_str());
    line.append(" failed: ");
    line.append(why);
    line
}

} // verus!
