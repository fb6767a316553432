use token_checker::report::{describe_failure, describe_join_error, result_header};
use token_checker::runner::FailureClass;
use token_checker::utils::enums::{ApiError, DecodeFault, IoFault, TransportFault};
use token_checker::utils::structs::UnauthorizedResponse;

fn fault(timeout: bool, connect: bool, request: bool, detail: &str) -> TransportFault {
    TransportFault { timeout, connect, request, detail: detail.to_string() }
}

fn each_kind() -> Vec<ApiError> {
    vec![
        ApiError::Unauthorized(UnauthorizedResponse {
            code: -7,
            message: "401: Unauthorized".to_string(),
        }),
        ApiError::RequestError(fault(false, true, false, "connection refused")),
        ApiError::ParseError(DecodeFault { detail: "expected value".to_string() }),
        ApiError::UnexpectedStatus(418, "short and stout".to_string()),
        ApiError::RateLimited(Some(UnauthorizedResponse {
            code: 1,
            message: "You are being rate limited.".to_string(),
        })),
        ApiError::RateLimited(None),
        ApiError::ClientBuildError(fault(false, false, false, "no tls")),
        ApiError::IoError(IoFault { detail: "Initial loop error".to_string() }),
    ]
}

#[test]
fn failures_in_one_line() {
    let lines: Vec<String> = each_kind().iter().map(|e| e.to_string()).collect();
    assert_eq!(
        lines,
        vec![
            "Unauthorized (-7): 401: Unauthorized",
            "Request error: connection refused",
            "JSON parse error: expected value",
            "Unexpected status code: 418 I'm a teapot. Body: short and stout",
            "Rate Limited (429). You are being rate limited.",
            "Rate Limited (429). ",
            "Failed to build HTTP client: no tls",
            "I/O error: Initial loop error",
        ]
    );
}

#[test]
fn faults_below_the_failures() {
    let below: Vec<Option<String>> =
        each_kind().iter().map(|e| e.source().map(|s| s.to_string())).collect();
    assert_eq!(
        below,
        vec![
            None,
            Some("connection refused".to_string()),
            Some("expected value".to_string()),
            None,
            None,
            None,
            Some("no tls".to_string()),
            Some("Initial loop error".to_string()),
        ]
    );
}

#[test]
fn failures_as_the_report_words_them() {
    let lines: Vec<String> = each_kind().iter().map(describe_failure).collect();
    assert_eq!(
        lines,
        vec![
            " -> Error: Token is invalid or expired. 401: Unauthorized",
            " -> Error: Network error after retries: connection refused",
            " -> Error: Failed to parse Discord response: expected value",
            " -> Error: Discord returned unexpected status 418 I'm a teapot. Body: short and stout",
            " -> Error: Rate Limited (429) after retries on initial check (/users/@me). Cannot proceed.",
            " -> Error: Rate Limited (429) after retries on initial check (/users/@me). Cannot proceed.",
            " -> Error: Failed to build HTTP client: no tls",
            " -> Error: I/O error: Initial loop error",
        ]
    );
}

#[test]
fn classes_of_the_failures() {
    let classes: Vec<FailureClass> = each_kind().iter().map(|e| e.class()).collect();
    assert_eq!(
        classes,
        vec![
            FailureClass::Terminal,
            FailureClass::Transient,
            FailureClass::Terminal,
            FailureClass::Terminal,
            FailureClass::RateLimited,
            FailureClass::RateLimited,
            FailureClass::Terminal,
            FailureClass::Terminal,
        ]
    );
}

#[test]
fn only_three_kinds_of_fault_are_transient() {
    assert_eq!(
        ApiError::RequestError(fault(true, false, false, "")).class(),
        FailureClass::Transient
    );
    assert_eq!(
        ApiError::RequestError(fault(false, true, false, "")).class(),
        FailureClass::Transient
    );
    assert_eq!(
        ApiError::RequestError(fault(false, false, true, "")).class(),
        FailureClass::Transient
    );
    assert_eq!(
        ApiError::RequestError(fault(false, false, false, "decode")).class(),
        FailureClass::Terminal
    );
}

#[test]
fn faults_become_failures() {
    assert_eq!(
        ApiError::from(fault(true, false, false, "slow")),
        ApiError::RequestError(fault(true, false, false, "slow"))
    );
    assert_eq!(
        ApiError::from(DecodeFault { detail: "eof".to_string() }),
        ApiError::ParseError(DecodeFault { detail: "eof".to_string() })
    );
    assert_eq!(
        ApiError::from(IoFault { detail: "disk".to_string() }),
        ApiError::IoError(IoFault { detail: "disk".to_string() })
    );
}

#[test]
fn header_of_an_outcome() {
    assert_eq!(
        result_header(1, 0, "abc.def.ghi", false),
        "--- Result #1 (Input Index: 1) [abc.def.ghi] ---"
    );
    assert_eq!(
        result_header(2, 6, "abc.def.ghi", true),
        "--- Result #2 (Input Index: 7) [abc.def.***] ---"
    );
}

#[test]
fn header_at_the_last_place_the_machine_can_count() {
    assert_eq!(
        result_header(0, usize::MAX, "t", false),
        format!("--- Result #0 (Input Index: {}) [t] ---", usize::MAX as u128 + 1)
    );
}

#[test]
fn notice_of_a_broken_task() {
    assert_eq!(
        describe_join_error(2, "task 9 panicked"),
        " -> Task for input index #3 failed: task 9 panicked"
    );
}
