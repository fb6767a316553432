//! The endpoint gateway: from what the transport brought back of one call to
//! a typed outcome. Nothing here sends a request or retries one.

use vstd::prelude::*;
use crate::utils::enums::{
    ApiError, ApiErrorView, BannerType, CdnType, DecodeFault, ImageType, TransportFault,
};
use crate::utils::structs::{
    Boost, Connection, Gift, Guild, Nitro, Promotion, Relationship, TokenInfo, TokenInfoView,
    UnauthorizedResponse, UnauthorizedResponseView,
};
use crate::utils::status::{status_line, status_text};
use crate::utils::constants::{BOOST_CREDIT_PLAN, CLASSIC_CREDIT_PLAN};
use crate::utils::{
    asset_url, is_animated, extension_for, plan_count, Utils,
};

verus! {

/// The locale that promotions are asked for where the caller names none.
pub const DEFAULT_LOCALE: &'static str = "en-US";

/// The status of a rejected credential, and the code of the body that
/// stands in for one that could not be decoded.
pub const STATUS_UNAUTHORIZED: u16 = 401;

/// The status of an answer that carries the expected payload.
pub const STATUS_OK: u16 = 200;

/// The status of an answer that asks the caller to back off.
pub const STATUS_TOO_MANY_REQUESTS: u16 = 429;

/// The calls that the checker makes for one credential.
#[derive(Debug, Clone, Copy, PartialEq, Eq)]
pub enum Endpoint {
    /// The identity of the account: the call that gates all others.
    Me,
    Connections,
    Promotions,
    Relationships,
    Guilds,
    Boosts,
    NitroInfo,
    NitroCredits,
    Gifts,
}

impl Endpoint {
    /// The path of the call below the root, with the query that is fixed.
    pub open spec fn spec_path(&self) -> Seq<char> {
        match self {
            Endpoint::Me => "/users/@me"@,
            Endpoint::Connections => "/users/@me/connections"@,
            Endpoint::Promotions => "/users/@me/outbound-promotions/codes"@,
            Endpoint::Relationships => "/users/@me/relationships"@,
            Endpoint::Guilds => "/users/@me/guilds?with_counts=true"@,
            Endpoint::Boosts => "/users/@me/guilds/premium/subscription-slots"@,
            Endpoint::NitroInfo => "/users/@me/billing/subscriptions"@,
            Endpoint::NitroCredits =>
                "/users/@me/applications/521842831262875670/entitlements?exclude_consumed=true"@,
            Endpoint::Gifts => "/users/@me/entitlements/gifts"@,
        }
    }

    /// Returns the path of the call below the root.
    pub fn path(&self) -> (path: &'static str)
        ensures
            path@ == self.spec_path(),
    {
        match self {
            Endpoint::Me => "/users/@me",
            Endpoint::Connections => "/users/@me/connections",
            Endpoint::Promotions => "/users/@me/outbound-promotions/codes",
            Endpoint::Relationships => "/users/@me/relationships",
            Endpoint::Guilds => "/users/@me/guilds?with_counts=true",
            Endpoint::Boosts => "/users/@me/guilds/premium/subscription-slots",
            Endpoint::NitroInfo => "/users/@me/billing/subscriptions",
            Endpoint::NitroCredits =>
                "/users/@me/applications/521842831262875670/entitlements?exclude_consumed=true",
            Endpoint::Gifts => "/users/@me/entitlements/gifts",
        }
    }

    /// Whether the call is one of the auxiliary ones, made side by side once
    /// the identity is known.
    pub open spec fn is_auxiliary(&self) -> bool {
        !(self is Me)
    }
}

/// What the gateway does with an answer, as its status decides.
#[derive(Debug, Clone, Copy, PartialEq, Eq)]
pub enum StatusClass {
    /// 200: the body is decoded as the payload of the endpoint.
    Payload,
    /// 401: the body is decoded as an error body, if it can be.
    Unauthorized,
    /// 429: the body is decoded as an error body, if it can be.
    RateLimited,
    /// Any other status: the body is read as text, if it can be.
    Unexpected,
}

/// The class of a status.
pub open spec fn status_class(status: u16) -> StatusClass {
    if status == STATUS_OK {
        StatusClass::Payload
    } else if status == STATUS_UNAUTHORIZED {
        StatusClass::Unauthorized
    } else if status == STATUS_TOO_MANY_REQUESTS {
        StatusClass::RateLimited
    } else {
        StatusClass::Unexpected
    }
}

/// Why the body of an answer with status 200 gave no payload.
#[derive(Debug, Clone, PartialEq, Eq)]
pub enum BodyFault {
    /// The body could not be read.
    Unreadable(TransportFault),
    /// The body was read and is not of the expected shape.
    Malformed(DecodeFault),
}

/// What the transport brought back of one call, the body read in the way
/// that the class of the status asks for.
#[derive(Debug, PartialEq, Eq)]
pub enum Reply<T> {
    /// The request got no answer.
    NotSent(TransportFault),
    /// Status 200, and the payload or the reason why there is none.
    Payload(Result<T, BodyFault>),
    /// Status 401, and the error body where it could be decoded.
    Unauthorized(Option<UnauthorizedResponse>),
    /// Status 429, and the error body where it could be decoded.
    RateLimited(Option<UnauthorizedResponse>),
    /// Another status, and the text of the body where it could be read.
    Unexpected(u16, Option<String>),
}

/// The body that stands in for the body of a rejection that could not be
/// decoded.
pub open spec fn undecoded_rejection() -> UnauthorizedResponseView {
    UnauthorizedResponseView {
        code: STATUS_UNAUTHORIZED as i32,
        message: "Unauthorized (parsing failed)"@,
    }
}

/// The outcome of a call, given what the transport brought back.
pub open spec fn translated<T>(reply: Reply<T>) -> Result<T, ApiErrorView> {
    match reply {
        Reply::NotSent(fault) => Err(ApiErrorView::RequestError(fault@)),
        Reply::Payload(Ok(payload)) => Ok(payload),
        Reply::Payload(Err(BodyFault::Unreadable(fault))) => Err(
            ApiErrorView::RequestError(fault@),
        ),
        Reply::Payload(Err(BodyFault::Malformed(fault))) => Err(ApiErrorView::ParseError(fault@)),
        Reply::Unauthorized(Some(body)) => Err(ApiErrorView::Unauthorized(body@)),
        Reply::Unauthorized(None) => Err(ApiErrorView::Unauthorized(undecoded_rejection())),
        Reply::RateLimited(Some(body)) => Err(ApiErrorView::RateLimited(Some(body@))),
        Reply::RateLimited(None) => Err(ApiErrorView::RateLimited(None)),
        Reply::Unexpected(status, Some(body)) => Err(
            ApiErrorView::UnexpectedStatus(status, body@),
        ),
        Reply::Unexpected(status, None) => Err(
            ApiErrorView::UnexpectedStatus(status, "Status: "@ + status_text(status)),
        ),
    }
}

/// The mathematical value of an outcome: the payload as it is, the error by
/// its view.
pub open spec fn outcome_view<T>(outcome: Result<T, ApiError>) -> Result<T, ApiErrorView> {
    match outcome {
        Ok(payload) => Ok(payload),
        Err(error) => Err(error@),
    }
}

/// The address that an avatar or banner hash stands for, where there is a
/// hash: with the animated extension where the hash carries the marker,
/// with the static one otherwise.
pub open spec fn resolved_asset(
    cdn_type: CdnType,
    owner: Seq<char>,
    hash: Option<Seq<char>>,
) -> Option<Seq<char>> {
    match hash {
        Some(h) => Some(asset_url(cdn_type, owner, h, extension_for(is_animated(h)))),
        None => None,
    }
}

/// A hash that carries the marker of animated images stands for an address
/// with the animated extension, and any other hash for one with the static
/// extension, whatever the kind of asset; where there is no hash there is
/// no address, and so never one that is malformed.
pub proof fn lemma_asset_extension(cdn_type: CdnType, owner: Seq<char>, hash: Seq<char>)
    ensures
        resolved_asset(cdn_type, owner, None) is None,
        is_animated(hash) ==> resolved_asset(cdn_type, owner, Some(hash)) == Some(
            asset_url(cdn_type, owner, hash, ImageType::Gif),
        ),
        !is_animated(hash) ==> resolved_asset(cdn_type, owner, Some(hash)) == Some(
            asset_url(cdn_type, owner, hash, ImageType::Png),
        ),
        ImageType::Gif.spec_str() == "gif"@,
        ImageType::Png.spec_str() == "png"@,
{
}

/// The identity record that the gateway returns for the payload `sent`,
/// fetched with the credential `token`.
pub open spec fn identity_of(sent: TokenInfoView, token: Seq<char>) -> TokenInfoView {
    TokenInfoView {
        fullname: sent.username + "#"@ + sent.discriminator,
        token: token,
        avatar: resolved_asset(CdnType::UserAvatar, sent.id, sent.avatar),
        banner: resolved_asset(CdnType::Banner(BannerType::User), sent.id, sent.banner),
        ..sent
    }
}

/// The address of a call: the root, the path, and the query.
pub open spec fn endpoint_url(endpoint: Endpoint, locale: Option<Seq<char>>) -> Seq<char> {
    if endpoint is Promotions {
        API::API_URL@ + endpoint.spec_path() + "?"@ + "locale="@ + match locale {
            Some(l) => l,
            None => DEFAULT_LOCALE@,
        }
    } else {
        API::API_URL@ + endpoint.spec_path()
    }
}

/// The gateway of one credential.
pub struct API {
    token: String,
}

impl API {
    /// The versioned root of the upstream service.
    pub const API_URL: &'static str = "https://discord.com/api/v9";

    /// The credential that the gateway works for.
    pub closed spec fn token_text(&self) -> Seq<char> {
        self.token@
    }

    /// Makes the gateway of the credential `token`.
    pub fn new(token: String) -> (api: API)
        ensures
            api.token_text() == token@,
    {
        API { token }
    }

    /// Returns the credential that the gateway works for.
    pub fn token(&self) -> (token: &str)
        ensures
            token@ == self.token_text(),
    {
        self.token.as_str()
    }

    /// Builds the address of a call. Only promotions take the locale; where
    /// none is given they are asked for in the default one.
    pub fn url(endpoint: Endpoint, locale: Option<&str>) -> (url: String)
        ensures
            url@ == endpoint_url(
                endpoint,
                match locale {
                    Some(l) => Some(l@),
                    None => None,
                },
            ),
    {
        let mut url = String::from_str(Self::API_URL);
        url.append(endpoint.path());
        match endpoint {
            Endpoint::Promotions => {
                url.append("?");
                url.append("locale=");
                url.append(
                    match locale {
                        Some(l) => l,
                        None => DEFAULT_LOCALE,
                    },
                );
            },
            _ => {},
        }
        url
    }

    /// Tells from the status of an answer how its body is to be read.
    pub fn classify_status(status: u16) -> (class: StatusClass)
        ensures
            class == status_class(status),
    {
        if status == STATUS_OK {
            StatusClass::Payload
        } else if status == STATUS_UNAUTHORIZED {
            StatusClass::Unauthorized
        } else if status == STATUS_TOO_MANY_REQUESTS {
            StatusClass::RateLimited
        } else {
            StatusClass::Unexpected
        }
    }

    /// Translates what the transport brought back of one call into its
    /// outcome. A payload is handed on as it is. A rejection whose body
    /// could not be decoded gets a body made up for it; an unexpected
    /// status whose body could not be read gets the status written out in
    /// its place.
    pub fn translate<T>(reply: Reply<T>) -> (outcome: Result<T, ApiError>)
        ensures
            outcome_view(outcome) == translated(reply),
    {
        match reply {
            Reply::NotSent(fault) => Err(ApiError::RequestError(fault)),
            Reply::Payload(Ok(payload)) => Ok(payload),
            Reply::Payload(Err(BodyFault::Unreadable(fault))) => Err(
                ApiError::RequestError(fault),
            ),
            Reply::Payload(Err(BodyFault::Malformed(fault))) => Err(ApiError::ParseError(fault)),
            Reply::Unauthorized(Some(body)) => Err(ApiError::Unauthorized(body)),
            Reply::Unauthorized(None) => Err(
                ApiError::Unauthorized(
                    UnauthorizedResponse {
                        code: 401,
                        message: String::from_str("Unauthorized (parsing failed)"),
                    },
                ),
            ),
            Reply::RateLimited(body) => Err(ApiError::RateLimited(body)),
            Reply::Unexpected(status, Some(body)) => Err(ApiError::UnexpectedStatus(status, body)),
            Reply::Unexpected(status, None) => {
                let mut body = String::from_str("Status: ");
                let line = status_line(status);
                body.append(line.as_str());
                Err(ApiError::UnexpectedStatus(status, body))
            },
        }
    }

    /// Concludes the identity call. The record that the upstream sent is
    /// completed on the way: the full name is made of user name and
    /// discriminator, the credential is noted, and the hashes of avatar and
    /// banner give way to their addresses. Any failure is that of
    /// [`API::translate`].
    pub fn get_me(&self, reply: Reply<TokenInfo>) -> (outcome: Result<TokenInfo, ApiError>)
        ensures
            match translated(reply) {
                Ok(sent) => outcome matches Ok(info) && info@ == identity_of(
                    sent@,
                    self.token_text(),
                ),
                Err(error) => outcome matches Err(e) && e@ == error,
            },
    {
        match Self::translate(reply) {
            Ok(sent) => {
                let ghost before = sent@;
                let mut info = sent;
                let mut fullname = info.username.clone();
                fullname.append("#");
                fullname.append(info.discriminator.as_str());
                info.fullname = fullname;
                info.token = self.token.clone();
                info.avatar = match &info.avatar {
                    Some(hash) => Some(Utils::get_avatar(&info.id, hash)),
                    None => None,
                };
                info.banner = match &info.banner {
                    Some(hash) => Some(Utils::get_banner(BannerType::User, &info.id, hash)),
                    None => None,
                };
                Ok(info)
            },
            Err(error) => Err(error),
        }
    }

    /// Concludes the call for the linked accounts.
    pub fn get_connections(&self, reply: Reply<Vec<Connection>>) -> (outcome: Result<
        Vec<Connection>,
        ApiError,
    >)
        ensures
            outcome_view(outcome) == translated(reply),
    {
        Self::translate(reply)
    }

    /// Concludes the call for the promotional codes.
    pub fn get_promotions(&self, reply: Reply<Vec<Promotion>>) -> (outcome: Result<
        Vec<Promotion>,
        ApiError,
    >)
        ensures
            outcome_view(outcome) == translated(reply),
    {
        Self::translate(reply)
    }

    /// Concludes the call for the boost slots.
    pub fn check_boosts(&self, reply: Reply<Vec<Boost>>) -> (outcome: Result<
        Vec<Boost>,
        ApiError,
    >)
        ensures
            outcome_view(outcome) == translated(reply),
    {
        Self::translate(reply)
    }

    /// Concludes the call for the relationships.
    pub fn get_relationships(&self, reply: Reply<Vec<Relationship>>) -> (outcome: Result<
        Vec<Relationship>,
        ApiError,
    >)
        ensures
            outcome_view(outcome) == translated(reply),
    {
        Self::translate(reply)
    }

    /// Concludes the call for the guild memberships.
    pub fn get_guilds(&self, reply: Reply<Vec<Guild>>) -> (outcome: Result<Vec<Guild>, ApiError>)
        ensures
            outcome_view(outcome) == translated(reply),
    {
        Self::translate(reply)
    }

    /// Concludes the call for the paid subscriptions.
    pub fn get_nitro_info(&self, reply: Reply<Vec<Nitro>>) -> (outcome: Result<
        Vec<Nitro>,
        ApiError,
    >)
        ensures
            outcome_view(outcome) == translated(reply),
    {
        Self::translate(reply)
    }

    /// Concludes the call for the unconsumed credits: the entitlements that
    /// came back are counted by tier.
    pub fn check_nitro_credit(&self, reply: Reply<Vec<Gift>>) -> (outcome: Result<
        (usize, usize),
        ApiError,
    >)
        ensures
            match translated(reply) {
                Ok(entitlements) => outcome == Ok::<(usize, usize), ApiError>(
                    (
                        plan_count(entitlements@, CLASSIC_CREDIT_PLAN@) as usize,
                        plan_count(entitlements@, BOOST_CREDIT_PLAN@) as usize,
                    ),
                ),
                Err(error) => outcome matches Err(e) && e@ == error,
            },
    {
        match Self::translate(reply) {
            Ok(entitlements) => Ok(Utils::count_credits(&entitlements)),
            Err(error) => Err(error),
        }
    }

    /// Concludes the call for the gifts.
    pub fn get_gifts(&self, reply: Reply<Vec<Gift>>) -> (outcome: Result<Vec<Gift>, ApiError>)
        ensures
            outcome_view(outcome) == translated(reply),
    {
        Self::translate(reply)
    }
}

} // verus!
