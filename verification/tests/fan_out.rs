use token_checker::api::{Endpoint, Reply};
use token_checker::checker::{Attempt, CheckStep, Checker, FanOut};
use token_checker::utils::enums::{ApiError, DecodeFault, TransportFault};
use token_checker::utils::structs::{
    Boost, Connection, Gift, Guild, Nitro, Promotion, PublicUser, Relationship, SubscriptionPlan,
    TokenInfo, TokenResult, UnauthorizedResponse,
};
use token_checker::utils::Utils;

fn identity() -> TokenInfo {
    TokenInfo {
        id: "1".to_string(),
        username: "user".to_string(),
        global_name: None,
        discriminator: "0".to_string(),
        avatar: None,
        banner: None,
        banner_color: None,
        email: "user@example.com".to_string(),
        locale: "en-GB".to_string(),
        phone: None,
        mfa_enabled: false,
        bio: None,
        public_flags: 0,
        fullname: String::new(),
        token: String::new(),
    }
}

fn connection(name: &str) -> Connection {
    Connection {
        connection_type: "github".to_string(),
        name: name.to_string(),
        visibility: 0,
        verified: false,
        revoked: false,
    }
}

fn promotion(code: &str) -> Promotion {
    Promotion {
        outbound_title: "offer".to_string(),
        start_time: "2024-01-01T00:00:00+00:00".to_string(),
        end_date: "2024-02-01T00:00:00+00:00".to_string(),
        link: "https://example.com".to_string(),
        code: code.to_string(),
    }
}

fn relationship(id: &str) -> Relationship {
    Relationship {
        id: id.to_string(),
        is_spam_request: false,
        nickname: None,
        user: PublicUser {
            id: id.to_string(),
            avatar: None,
            global_name: None,
            public_flags: 0,
            username: "friend".to_string(),
            discriminator: "0001".to_string(),
        },
        friendship_since: "2020-05-05T10:00:00+00:00".to_string(),
        friend_type: 1,
    }
}

fn guild(id: &str) -> Guild {
    Guild {
        id: id.to_string(),
        name: "guild".to_string(),
        is_owner: false,
        permissions: "0".to_string(),
        icon: None,
        banner: None,
        member_count: 3,
    }
}

fn boost(id: &str) -> Boost {
    Boost {
        id: id.to_string(),
        subscription_id: "s".to_string(),
        premium_guild_subscription: None,
        canceled: false,
        ends: "never".to_string(),
    }
}

fn nitro(id: &str) -> Nitro {
    Nitro {
        id: id.to_string(),
        nitro_type: 1,
        created_at: "2023-01-01T00:00:00+00:00".to_string(),
        canceled_at: None,
        start_time: None,
        end_time: None,
    }
}

fn gift(plan: &str) -> Gift {
    Gift { subscription_plan: Some(SubscriptionPlan { name: plan.to_string() }) }
}

fn all_succeed() -> FanOut {
    FanOut {
        connections: Ok(vec![connection("a")]),
        promotions: Ok(vec![promotion("CODE-1")]),
        relationships: Ok(vec![relationship("2"), relationship("3")]),
        guilds: Ok(vec![guild("10")]),
        boosts: Ok(vec![boost("b")]),
        nitro_info: Ok(vec![nitro("n")]),
        nitro_credits: Ok((2, 5)),
        gifts: Ok(vec![gift("Nitro Monthly")]),
    }
}

fn rate_limit() -> ApiError {
    ApiError::RateLimited(Some(UnauthorizedResponse {
        code: 0,
        message: "slow down".to_string(),
    }))
}

fn other_failure() -> ApiError {
    ApiError::UnexpectedStatus(500, "oops".to_string())
}

fn full_record() -> TokenResult {
    TokenResult {
        main_info: identity(),
        connections: vec![connection("a")],
        relationships: vec![relationship("2"), relationship("3")],
        promotions: vec![promotion("CODE-1")],
        rate_limited: false,
        guilds: vec![guild("10")],
        boosts: vec![boost("b")],
        nitro_info: vec![nitro("n")],
        nitro_credits: (2, 5),
        gifts: vec![gift("Nitro Monthly")],
    }
}

#[test]
fn payload_fills_the_slot() {
    let mut rate_limited = false;
    let value = Utils::process_result(Ok(vec![1u8, 2]), &mut rate_limited, Vec::new());
    assert_eq!(value, vec![1, 2]);
    assert!(!rate_limited);
}

#[test]
fn rate_limit_fills_the_slot_with_the_default_and_is_flagged() {
    let mut rate_limited = false;
    let value = Utils::process_result(Err(rate_limit()), &mut rate_limited, (0usize, 0usize));
    assert_eq!(value, (0, 0));
    assert!(rate_limited);
}

#[test]
fn other_failure_fills_the_slot_with_the_default_unflagged() {
    let mut rate_limited = false;
    let value: Vec<u8> = Utils::process_result(Err(other_failure()), &mut rate_limited, vec![9]);
    assert_eq!(value, vec![9]);
    assert!(!rate_limited);
}

#[test]
fn flag_once_raised_stays_raised() {
    let mut rate_limited = true;
    let _ = Utils::process_result(Ok(1u8), &mut rate_limited, 0);
    assert!(rate_limited);
    let _ = Utils::process_result(Err(other_failure()), &mut rate_limited, 0u8);
    assert!(rate_limited);
}

#[test]
fn there_are_eight_auxiliary_calls() {
    assert_eq!(
        Checker::auxiliary_calls(),
        vec![
            Endpoint::Connections,
            Endpoint::Promotions,
            Endpoint::Relationships,
            Endpoint::Guilds,
            Endpoint::Boosts,
            Endpoint::NitroInfo,
            Endpoint::NitroCredits,
            Endpoint::Gifts,
        ]
    );
}

#[test]
fn every_payload_lands_in_its_own_slot() {
    let checker = Checker::new("t");
    assert_eq!(checker.process_token(identity(), all_succeed()), Ok(full_record()));
}

#[test]
fn one_rate_limit_flags_the_record_and_empties_only_its_slot() {
    let checker = Checker::new("t");
    let mut outcomes = all_succeed();
    outcomes.guilds = Err(rate_limit());
    let mut expected = full_record();
    expected.guilds = Vec::new();
    expected.rate_limited = true;
    assert_eq!(checker.process_token(identity(), outcomes), Ok(expected));
}

#[test]
fn each_slot_can_be_the_rate_limited_one() {
    let checker = Checker::new("t");
    for slot in 0..8 {
        let mut outcomes = all_succeed();
        let mut expected = full_record();
        expected.rate_limited = true;
        match slot {
            0 => {
                outcomes.connections = Err(rate_limit());
                expected.connections = Vec::new();
            }
            1 => {
                outcomes.promotions = Err(rate_limit());
                expected.promotions = Vec::new();
            }
            2 => {
                outcomes.relationships = Err(rate_limit());
                expected.relationships = Vec::new();
            }
            3 => {
                outcomes.guilds = Err(rate_limit());
                expected.guilds = Vec::new();
            }
            4 => {
                outcomes.boosts = Err(rate_limit());
                expected.boosts = Vec::new();
            }
            5 => {
                outcomes.nitro_info = Err(rate_limit());
                expected.nitro_info = Vec::new();
            }
            6 => {
                outcomes.nitro_credits = Err(rate_limit());
                expected.nitro_credits = (0, 0);
            }
            _ => {
                outcomes.gifts = Err(rate_limit());
                expected.gifts = Vec::new();
            }
        }
        assert_eq!(checker.process_token(identity(), outcomes), Ok(expected));
    }
}

#[test]
fn other_failures_empty_their_slots_without_a_flag() {
    let checker = Checker::new("t");
    let mut outcomes = all_succeed();
    outcomes.connections = Err(other_failure());
    outcomes.nitro_credits = Err(ApiError::ParseError(DecodeFault { detail: "bad".to_string() }));
    outcomes.gifts = Err(ApiError::Unauthorized(UnauthorizedResponse {
        code: 0,
        message: "no".to_string(),
    }));
    let mut expected = full_record();
    expected.connections = Vec::new();
    expected.nitro_credits = (0, 0);
    expected.gifts = Vec::new();
    assert_eq!(checker.process_token(identity(), outcomes), Ok(expected));
}

#[test]
fn all_calls_failing_still_gives_a_record() {
    let checker = Checker::new("t");
    let outcomes = FanOut {
        connections: Err(rate_limit()),
        promotions: Err(other_failure()),
        relationships: Err(rate_limit()),
        guilds: Err(other_failure()),
        boosts: Err(other_failure()),
        nitro_info: Err(other_failure()),
        nitro_credits: Err(other_failure()),
        gifts: Err(other_failure()),
    };
    let expected = TokenResult {
        main_info: identity(),
        connections: Vec::new(),
        relationships: Vec::new(),
        promotions: Vec::new(),
        rate_limited: true,
        guilds: Vec::new(),
        boosts: Vec::new(),
        nitro_info: Vec::new(),
        nitro_credits: (0, 0),
        gifts: Vec::new(),
    };
    assert_eq!(checker.process_token(identity(), outcomes), Ok(expected));
}

#[test]
fn credential_must_fit_a_header() {
    assert!(Checker::accepts("abc.def-ghi_123"));
    assert!(Checker::accepts(""));
    assert!(Checker::accepts("with space and\ttab"));
    assert!(Checker::accepts("caf\u{e9}"));
    assert!(!Checker::accepts("line\nbreak"));
    assert!(!Checker::accepts("carriage\rreturn"));
    assert!(!Checker::accepts("nul\0"));
    assert!(!Checker::accepts("delete\u{7f}"));
}

#[test]
fn checker_keeps_its_credential() {
    let checker = Checker::new("abc.def");
    assert_eq!(checker.token(), "abc.def");
    assert_eq!(checker.api().token(), "abc.def");
}

#[test]
fn known_identity_opens_the_fan_out() {
    let checker = Checker::new("abc.def");
    let mut expected = identity();
    expected.fullname = "user#0".to_string();
    expected.token = "abc.def".to_string();
    assert_eq!(checker.check(Reply::Payload(Ok(identity()))), CheckStep::FanOut(expected));
}

#[test]
fn failed_identity_ends_the_attempt() {
    let checker = Checker::new("abc.def");
    assert_eq!(checker.check(Reply::RateLimited(None)), CheckStep::Failed(rate_limit_none()));
    let fault = TransportFault {
        timeout: true,
        connect: false,
        request: false,
        detail: "timed out".to_string(),
    };
    assert_eq!(
        checker.check(Reply::NotSent(fault.clone())),
        CheckStep::Failed(ApiError::RequestError(fault))
    );
}

fn rate_limit_none() -> ApiError {
    ApiError::RateLimited(None)
}

#[test]
fn whole_attempt_with_a_known_identity() {
    let checker = Checker::new("abc.def");
    let mut outcomes = all_succeed();
    outcomes.boosts = Err(rate_limit());
    let mut expected = full_record();
    expected.main_info.fullname = "user#0".to_string();
    expected.main_info.token = "abc.def".to_string();
    expected.boosts = Vec::new();
    expected.rate_limited = true;
    assert_eq!(
        checker.attempt(Attempt { identity: Reply::Payload(Ok(identity())), fan_out: outcomes }),
        Ok(expected)
    );
}

#[test]
fn whole_attempt_with_a_failed_identity_ignores_the_rest() {
    let checker = Checker::new("abc.def");
    assert_eq!(
        checker.attempt(Attempt {
            identity: Reply::Unexpected(500, Some("down".to_string())),
            fan_out: all_succeed(),
        }),
        Err(ApiError::UnexpectedStatus(500, "down".to_string()))
    );
}

#[test]
fn credits_without_entitlements_are_zero() {
    assert_eq!(Utils::count_credits(&Vec::new()), (0, 0));
}

#[test]
fn credits_are_told_apart_by_plan() {
    let entitlements = vec![
        gift("Nitro Classic Monthly"),
        gift("Nitro Monthly"),
        gift("Nitro Classic Monthly"),
        Gift { subscription_plan: None },
        gift("nitro monthly"),
    ];
    assert_eq!(Utils::count_credits(&entitlements), (2, 1));
}

#[test]
fn addresses_of_the_auxiliary_calls() {
    let mut info = identity();
    info.locale = "pt-BR".to_string();
    let root = "https://discord.com/api/v9/users/@me";
    assert_eq!(
        Checker::auxiliary_urls(&info),
        vec![
            format!("{}/connections", root),
            format!("{}/outbound-promotions/codes?locale=pt-BR", root),
            format!("{}/relationships", root),
            format!("{}/guilds?with_counts=true", root),
            format!("{}/guilds/premium/subscription-slots", root),
            format!("{}/billing/subscriptions", root),
            format!(
                "{}/applications/521842831262875670/entitlements?exclude_consumed=true",
                root
            ),
            format!("{}/entitlements/gifts", root),
        ]
    );
}

#[test]
fn one_address_for_each_auxiliary_call() {
    assert_eq!(Checker::auxiliary_urls(&identity()).len(), Checker::auxiliary_calls().len());
}
