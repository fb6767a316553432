//! The closed sets of values the checker distinguishes, and the failure
//! taxonomy of one upstream call.

use vstd::prelude::*;
use vstd::std_specs::convert::FromSpecImpl;
use crate::utils::status::{status_line, status_text};
use crate::utils::structs::{UnauthorizedResponse, UnauthorizedResponseView};
use crate::utils::text::{signed_decimal, signed_to_string};

verus! {

/// A loosely typed value of a key-value table: text, or an integer of one of
/// three widths.
#[derive(Debug, Clone, PartialEq, Eq)]
pub enum StrOrInt {
    StrV(String),
    I32V(i32),
    I64V(i64),
    I128V(i128),
}

/// The kinds of asset the content delivery network serves.
#[derive(Debug, Clone, Copy, PartialEq, Eq)]
pub enum CdnType {
    UserAvatar,
    GuildIcon,
    Banner(BannerType),
}

/// Whose banner an asset is.
#[derive(Debug, Clone, Copy, PartialEq, Eq)]
pub enum BannerType {
    User,
    Guild,
}

/// The image formats an asset can be requested in.
#[derive(Debug, Clone, Copy, PartialEq, Eq)]
pub enum ImageType {
    Png,
    Jpg,
    Jpeg,
    Webp,
    Gif,
    Svg,
}

/// A fault below the level of HTTP statuses: the request could not be sent,
/// or the answer could not be read. The three marks say how the transport
/// classed it; none of them excludes another.
#[derive(Debug, Clone, PartialEq, Eq)]
pub struct TransportFault {
    /// The operation ran out of time.
    pub timeout: bool,
    /// No connection could be established.
    pub connect: bool,
    /// The request itself could not be sent.
    pub request: bool,
    /// What the transport said about the fault.
    pub detail: String,
}

/// The mathematical value of a [`TransportFault`].
pub ghost struct TransportFaultView {
    pub timeout: bool,
    pub connect: bool,
    pub request: bool,
    pub detail: Seq<char>,
}

impl View for TransportFault {
    type V = TransportFaultView;

    open spec fn view(&self) -> TransportFaultView {
        TransportFaultView {
            timeout: self.timeout,
            connect: self.connect,
            request: self.request,
            detail: self.detail@,
        }
    }
}

impl TransportFaultView {
    /// Whether trying again may help: the fault is of the timeout, the
    /// connect or the request class.
    pub open spec fn transient(self) -> bool {
        self.timeout || self.connect || self.request
    }
}

/// A body that arrived but did not have the expected shape.
#[derive(Debug, Clone, PartialEq, Eq)]
pub struct DecodeFault {
    /// What the decoder said about the mismatch.
    pub detail: String,
}

impl View for DecodeFault {
    type V = Seq<char>;

    open spec fn view(&self) -> Seq<char> {
        self.detail@
    }
}

/// A fault of the local machine's input or output.
#[derive(Debug, Clone, PartialEq, Eq)]
pub struct IoFault {
    /// What the operating system said about the fault.
    pub detail: String,
}

impl View for IoFault {
    type V = Seq<char>;

    open spec fn view(&self) -> Seq<char> {
        self.detail@
    }
}

/// Why one upstream call, or the whole check of one credential, failed.
#[derive(Debug, Clone, PartialEq, Eq)]
pub enum ApiError {
    /// The upstream rejected the credential.
    Unauthorized(UnauthorizedResponse),
    /// No usable answer was received.
    RequestError(TransportFault),
    /// The answer had a success status but not the expected shape.
    ParseError(DecodeFault),
    /// The upstream answered with a status the gateway has no rule for; the
    /// second field is the raw body.
    UnexpectedStatus(u16, String),
    /// The upstream asked the caller to back off.
    RateLimited(Option<UnauthorizedResponse>),
    /// The transport client could not be set up.
    ClientBuildError(TransportFault),
    /// A local input or output fault.
    IoError(IoFault),
}

/// The mathematical value of an [`ApiError`].
pub ghost enum ApiErrorView {
    Unauthorized(UnauthorizedResponseView),
    RequestError(TransportFaultView),
    ParseError(Seq<char>),
    UnexpectedStatus(u16, Seq<char>),
    RateLimited(Option<UnauthorizedResponseView>),
    ClientBuildError(TransportFaultView),
    IoError(Seq<char>),
}

impl View for ApiError {
    type V = ApiErrorView;

    open spec fn view(&self) -> ApiErrorView {
        match self {
            ApiError::Unauthorized(body) => ApiErrorView::Unauthorized(body@),
            ApiError::RequestError(fault) => ApiErrorView::RequestError(fault@),
            ApiError::ParseError(fault) => ApiErrorView::ParseError(fault@),
            ApiError::UnexpectedStatus(status, body) => ApiErrorView::UnexpectedStatus(
                *status,
                body@,
            ),
            ApiError::RateLimited(body) => ApiErrorView::RateLimited(
                match body {
                    Some(b) => Some(b@),
                    None => None,
                },
            ),
            ApiError::ClientBuildError(fault) => ApiErrorView::ClientBuildError(fault@),
            ApiError::IoError(fault) => ApiErrorView::IoError(fault@),
        }
    }
}

impl ApiErrorView {
    /// The failure in one line.
    pub open spec fn text(self) -> Seq<char> {
        match self {
            ApiErrorView::Unauthorized(body) => "Unauthorized ("@ + signed_decimal(
                body.code as int,
            ) + "): "@ + body.message,
            ApiErrorView::RequestError(fault) => "Request error: "@ + fault.detail,
            ApiErrorView::ParseError(detail) => "JSON parse error: "@ + detail,
            ApiErrorView::UnexpectedStatus(status, body) => "Unexpected status code: "@
                + status_text(status) + ". Body: "@ + body,
            ApiErrorView::RateLimited(body) => "Rate Limited (429). "@ + match body {
                Some(b) => b.message,
                None => Seq::empty(),
            },
            ApiErrorView::ClientBuildError(fault) => "Failed to build HTTP client: "@
                + fault.detail,
            ApiErrorView::IoError(detail) => "I/O error: "@ + detail,
        }
    }

    /// What the fault below the failure said, where the failure has a
    /// fault below it.
    pub open spec fn source(self) -> Option<Seq<char>> {
        match self {
            ApiErrorView::RequestError(fault) => Some(fault.detail),
            ApiErrorView::ParseError(detail) => Some(detail),
            ApiErrorView::ClientBuildError(fault) => Some(fault.detail),
            ApiErrorView::IoError(detail) => Some(detail),
            ApiErrorView::Unauthorized(_) => None,
            ApiErrorView::RateLimited(_) => None,
            ApiErrorView::UnexpectedStatus(_, _) => None,
        }
    }
}

impl ApiError {
    /// Writes the failure in one line.
    pub fn to_string(&self) -> (line: String)
        ensures
            line@ == self@.text(),
    {
        match self {
            ApiError::Unauthorized(body) => {
                let mut line = String::from_str("Unauthorized (");
                let code = signed_to_string(body.code as i128);
                line.append(code.as_str());
                line.append("): ");
                line.append(body.message.as_str());
                line
            },
            ApiError::RequestError(fault) => {
                let mut line = String::from_str("Request error: ");
                line.append(fault.detail.as_str());
                line
            },
            ApiError::ParseError(fault) => {
                let mut line = String::from_str("JSON parse error: ");
                line.append(fault.detail.as_str());
                line
            },
            ApiError::UnexpectedStatus(status, body) => {
                let mut line = String::from_str("Unexpected status code: ");
                let written = status_line(*status);
                line.append(written.as_str());
                line.append(". Body: ");
                line.append(body.as_str());
                line
            },
            ApiError::RateLimited(body) => {
                let mut line = String::from_str("Rate Limited (429). ");
                match body {
                    Some(b) => line.append(b.message.as_str()),
                    None => {
                    },
                }
                line
            },
            ApiError::ClientBuildError(fault) => {
                let mut line = String::from_str("Failed to build HTTP client: ");
                line.append(fault.detail.as_str());
                line
            },
            ApiError::IoError(fault) => {
                let mut line = String::from_str("I/O error: ");
                line.append(fault.detail.as_str());
                line
            },
        }
    }

    /// Returns what the fault below the failure said, where the failure has
    /// a fault below it: a rejection, a rate limit and an unexpected status
    /// have none.
    pub fn source(&self) -> (below: Option<&str>)
        ensures
            match below {
                Some(detail) => self@.source() == Some(detail@),
                None => self@.source() is None,
            },
    {
        match self {
            ApiError::RequestError(fault) => Some(fault.detail.as_str()),
            ApiError::ParseError(fault) => Some(fault.detail.as_str()),
            ApiError::ClientBuildError(fault) => Some(fault.detail.as_str()),
            ApiError::IoError(fault) => Some(fault.detail.as_str()),
            ApiError::Unauthorized(_) => None,
            ApiError::RateLimited(_) => None,
            ApiError::UnexpectedStatus(_, _) => None,
        }
    }
}

impl From<TransportFault> for ApiError {
    fn from(fault: TransportFault) -> (error: ApiError) {
        ApiError::RequestError(fault)
    }
}

impl FromSpecImpl<TransportFault> for ApiError {
    open spec fn obeys_from_spec() -> bool {
        true
    }

    open spec fn from_spec(fault: TransportFault) -> ApiError {
        ApiError::RequestError(fault)
    }
}

impl From<DecodeFault> for ApiError {
    fn from(fault: DecodeFault) -> (error: ApiError) {
        ApiError::ParseError(fault)
    }
}

impl FromSpecImpl<DecodeFault> for ApiError {
    open spec fn obeys_from_spec() -> bool {
        true
    }

    open spec fn from_spec(fault: DecodeFault) -> ApiError {
        ApiError::ParseError(fault)
    }
}

impl From<IoFault> for ApiError {
    fn from(fault: IoFault) -> (error: ApiError) {
        ApiError::IoError(fault)
    }
}

impl FromSpecImpl<IoFault> for ApiError {
    open spec fn obeys_from_spec() -> bool {
        true
    }

    open spec fn from_spec(fault: IoFault) -> ApiError {
        ApiError::IoError(fault)
    }
}

} // verus!
