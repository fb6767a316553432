use token_checker::api::{BodyFault, Endpoint, Reply, StatusClass, API};
use token_checker::utils::enums::{ApiError, DecodeFault, TransportFault};
use token_checker::utils::status::status_line;
use token_checker::utils::structs::{
    Connection, Gift, SubscriptionPlan, TokenInfo, UnauthorizedResponse,
};

fn fault(timeout: bool, connect: bool, request: bool, detail: &str) -> TransportFault {
    TransportFault { timeout, connect, request, detail: detail.to_string() }
}

fn sent_identity(avatar: Option<&str>, banner: Option<&str>) -> TokenInfo {
    TokenInfo {
        id: "80351110224678912".to_string(),
        username: "nelly".to_string(),
        global_name: Some("Nelly".to_string()),
        discriminator: "1337".to_string(),
        avatar: avatar.map(|h| h.to_string()),
        banner: banner.map(|h| h.to_string()),
        banner_color: None,
        email: "nelly@example.com".to_string(),
        locale: "en-US".to_string(),
        phone: None,
        mfa_enabled: true,
        bio: Some("hello".to_string()),
        public_flags: 64,
        fullname: String::new(),
        token: String::new(),
    }
}

fn connection(name: &str) -> Connection {
    Connection {
        connection_type: "steam".to_string(),
        name: name.to_string(),
        visibility: 1,
        verified: true,
        revoked: false,
    }
}

fn gift(plan: Option<&str>) -> Gift {
    Gift { subscription_plan: plan.map(|name| SubscriptionPlan { name: name.to_string() }) }
}

#[test]
fn status_decides_how_the_body_is_read() {
    assert_eq!(API::classify_status(200), StatusClass::Payload);
    assert_eq!(API::classify_status(401), StatusClass::Unauthorized);
    assert_eq!(API::classify_status(429), StatusClass::RateLimited);
    assert_eq!(API::classify_status(404), StatusClass::Unexpected);
    assert_eq!(API::classify_status(201), StatusClass::Unexpected);
    assert_eq!(API::classify_status(500), StatusClass::Unexpected);
    assert_eq!(API::classify_status(0), StatusClass::Unexpected);
}

#[test]
fn paths_of_the_calls() {
    assert_eq!(Endpoint::Me.path(), "/users/@me");
    assert_eq!(Endpoint::Connections.path(), "/users/@me/connections");
    assert_eq!(Endpoint::Promotions.path(), "/users/@me/outbound-promotions/codes");
    assert_eq!(Endpoint::Relationships.path(), "/users/@me/relationships");
    assert_eq!(Endpoint::Guilds.path(), "/users/@me/guilds?with_counts=true");
    assert_eq!(Endpoint::Boosts.path(), "/users/@me/guilds/premium/subscription-slots");
    assert_eq!(Endpoint::NitroInfo.path(), "/users/@me/billing/subscriptions");
    assert_eq!(
        Endpoint::NitroCredits.path(),
        "/users/@me/applications/521842831262875670/entitlements?exclude_consumed=true"
    );
    assert_eq!(Endpoint::Gifts.path(), "/users/@me/entitlements/gifts");
}

#[test]
fn addresses_of_the_calls() {
    assert_eq!(API::url(Endpoint::Me, None), "https://discord.com/api/v9/users/@me");
    assert_eq!(
        API::url(Endpoint::Guilds, Some("de")),
        "https://discord.com/api/v9/users/@me/guilds?with_counts=true"
    );
}

#[test]
fn promotions_are_asked_for_in_a_locale() {
    assert_eq!(
        API::url(Endpoint::Promotions, Some("fr")),
        "https://discord.com/api/v9/users/@me/outbound-promotions/codes?locale=fr"
    );
    assert_eq!(
        API::url(Endpoint::Promotions, None),
        "https://discord.com/api/v9/users/@me/outbound-promotions/codes?locale=en-US"
    );
}

#[test]
fn statuses_are_written_with_their_reason() {
    assert_eq!(status_line(200), "200 OK");
    assert_eq!(status_line(404), "404 Not Found");
    assert_eq!(status_line(503), "503 Service Unavailable");
}

#[test]
fn statuses_without_a_reason_say_so() {
    assert_eq!(status_line(299), "299 <unknown status code>");
    assert_eq!(status_line(42), "42 <unknown status code>");
    assert_eq!(status_line(1000), "1000 <unknown status code>");
}

#[test]
fn payload_is_handed_on() {
    let reply = Reply::Payload(Ok(vec![connection("a"), connection("b")]));
    assert_eq!(API::translate(reply), Ok(vec![connection("a"), connection("b")]));
}

#[test]
fn request_without_answer_is_a_request_error() {
    let reply: Reply<Vec<Connection>> = Reply::NotSent(fault(false, true, true, "refused"));
    assert_eq!(
        API::translate(reply),
        Err(ApiError::RequestError(fault(false, true, true, "refused")))
    );
}

#[test]
fn unreadable_body_is_a_request_error() {
    let reply: Reply<Vec<Connection>> =
        Reply::Payload(Err(BodyFault::Unreadable(fault(true, false, false, "timed out"))));
    assert_eq!(
        API::translate(reply),
        Err(ApiError::RequestError(fault(true, false, false, "timed out")))
    );
}

#[test]
fn malformed_body_is_a_parse_error() {
    let reply: Reply<Vec<Connection>> = Reply::Payload(Err(BodyFault::Malformed(DecodeFault {
        detail: "missing field `name`".to_string(),
    })));
    assert_eq!(
        API::translate(reply),
        Err(ApiError::ParseError(DecodeFault { detail: "missing field `name`".to_string() }))
    );
}

#[test]
fn rejection_carries_its_body() {
    let body = UnauthorizedResponse { code: 0, message: "401: Unauthorized".to_string() };
    let reply: Reply<Vec<Connection>> = Reply::Unauthorized(Some(body.clone()));
    assert_eq!(API::translate(reply), Err(ApiError::Unauthorized(body)));
}

#[test]
fn rejection_without_a_body_gets_one() {
    let reply: Reply<Vec<Connection>> = Reply::Unauthorized(None);
    assert_eq!(
        API::translate(reply),
        Err(ApiError::Unauthorized(UnauthorizedResponse {
            code: 401,
            message: "Unauthorized (parsing failed)".to_string(),
        }))
    );
}

#[test]
fn rate_limit_carries_its_body_or_none() {
    let body = UnauthorizedResponse { code: 20028, message: "slow down".to_string() };
    let with: Reply<Vec<Connection>> = Reply::RateLimited(Some(body.clone()));
    assert_eq!(API::translate(with), Err(ApiError::RateLimited(Some(body))));
    let without: Reply<Vec<Connection>> = Reply::RateLimited(None);
    assert_eq!(API::translate(without), Err(ApiError::RateLimited(None)));
}

#[test]
fn unexpected_status_carries_the_raw_body() {
    let reply: Reply<Vec<Connection>> = Reply::Unexpected(503, Some("<html>".to_string()));
    assert_eq!(
        API::translate(reply),
        Err(ApiError::UnexpectedStatus(503, "<html>".to_string()))
    );
}

#[test]
fn unexpected_status_without_a_body_is_written_out() {
    let reply: Reply<Vec<Connection>> = Reply::Unexpected(502, None);
    assert_eq!(
        API::translate(reply),
        Err(ApiError::UnexpectedStatus(502, "Status: 502 Bad Gateway".to_string()))
    );
}

#[test]
fn identity_is_completed() {
    let api = API::new("abc.def.ghi".to_string());
    let info = api.get_me(Reply::Payload(Ok(sent_identity(Some("a_1f"), Some("77"))))).unwrap();
    assert_eq!(info.fullname, "nelly#1337");
    assert_eq!(info.token, "abc.def.ghi");
    assert_eq!(
        info.avatar,
        Some("https://cdn.discordapp.com/avatars/80351110224678912/a_1f.gif".to_string())
    );
    assert_eq!(
        info.banner,
        Some("https://cdn.discordapp.com/banners/80351110224678912/77.png".to_string())
    );
    let mut expected = sent_identity(None, None);
    expected.fullname = info.fullname.clone();
    expected.token = info.token.clone();
    expected.avatar = info.avatar.clone();
    expected.banner = info.banner.clone();
    assert_eq!(info, expected);
}

#[test]
fn absent_hashes_stay_absent() {
    let api = API::new("t".to_string());
    let info = api.get_me(Reply::Payload(Ok(sent_identity(None, None)))).unwrap();
    assert_eq!(info.avatar, None);
    assert_eq!(info.banner, None);
    assert_eq!(info.fullname, "nelly#1337");
}

#[test]
fn animated_banner_of_the_identity() {
    let api = API::new("t".to_string());
    let info = api.get_me(Reply::Payload(Ok(sent_identity(Some("9c"), Some("a_77"))))).unwrap();
    assert_eq!(
        info.avatar,
        Some("https://cdn.discordapp.com/avatars/80351110224678912/9c.png".to_string())
    );
    assert_eq!(
        info.banner,
        Some("https://cdn.discordapp.com/banners/80351110224678912/a_77.gif".to_string())
    );
}

#[test]
fn failed_identity_call_fails_as_any_call() {
    let api = API::new("t".to_string());
    assert_eq!(
        api.get_me(Reply::Unauthorized(None)),
        Err(ApiError::Unauthorized(UnauthorizedResponse {
            code: 401,
            message: "Unauthorized (parsing failed)".to_string(),
        }))
    );
    assert_eq!(api.get_me(Reply::RateLimited(None)), Err(ApiError::RateLimited(None)));
    assert_eq!(
        api.get_me(Reply::Unexpected(500, None)),
        Err(ApiError::UnexpectedStatus(500, "Status: 500 Internal Server Error".to_string()))
    );
}

#[test]
fn typed_calls_conclude_as_translate_does() {
    let api = API::new("t".to_string());
    assert_eq!(
        api.get_connections(Reply::Payload(Ok(vec![connection("x")]))),
        Ok(vec![connection("x")])
    );
    assert_eq!(api.get_promotions(Reply::RateLimited(None)), Err(ApiError::RateLimited(None)));
    assert_eq!(api.check_boosts(Reply::Payload(Ok(Vec::new()))), Ok(Vec::new()));
    assert_eq!(
        api.get_relationships(Reply::Unexpected(403, Some("no".to_string()))),
        Err(ApiError::UnexpectedStatus(403, "no".to_string()))
    );
    assert_eq!(api.get_guilds(Reply::Payload(Ok(Vec::new()))), Ok(Vec::new()));
    assert_eq!(api.get_nitro_info(Reply::Payload(Ok(Vec::new()))), Ok(Vec::new()));
    assert_eq!(
        api.get_gifts(Reply::Payload(Ok(vec![gift(Some("Nitro Monthly"))]))),
        Ok(vec![gift(Some("Nitro Monthly"))])
    );
    assert_eq!(api.token(), "t");
}

#[test]
fn credits_are_counted_by_tier() {
    let api = API::new("t".to_string());
    let entitlements = vec![
        gift(Some("Nitro Monthly")),
        gift(Some("Nitro Classic Monthly")),
        gift(None),
        gift(Some("Nitro Monthly")),
        gift(Some("Nitro Yearly")),
    ];
    assert_eq!(api.check_nitro_credit(Reply::Payload(Ok(entitlements))), Ok((1, 2)));
    assert_eq!(api.check_nitro_credit(Reply::Payload(Ok(Vec::new()))), Ok((0, 0)));
    assert_eq!(
        api.check_nitro_credit(Reply::RateLimited(None)),
        Err(ApiError::RateLimited(None))
    );
}

#[test]
fn root_of_the_upstream_service() {
    assert_eq!(API::API_URL, "https://discord.com/api/v9");
}
