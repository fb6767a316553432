use token_checker::utils::structs::{
    Boost, Connection, Gift, Guild, Nitro, PremiumGuildSubscription, Promotion, PublicUser,
    Relationship, SubscriptionPlan, TokenInfo, TokenResult, RATE_LIMITED_NOTICE,
};

fn identity() -> TokenInfo {
    TokenInfo {
        id: "80351110224678912".to_string(),
        username: "nelly".to_string(),
        global_name: Some("Nelly".to_string()),
        discriminator: "1337".to_string(),
        avatar: Some("https://cdn.discordapp.com/avatars/80351110224678912/8342.png".to_string()),
        banner: None,
        banner_color: Some("#ff00ff".to_string()),
        email: "nelly@example.com".to_string(),
        locale: "en-US".to_string(),
        phone: None,
        mfa_enabled: true,
        bio: None,
        public_flags: 64,
        fullname: "nelly#1337".to_string(),
        token: "abc.def.ghij".to_string(),
    }
}

fn connection() -> Connection {
    Connection {
        connection_type: "steam".to_string(),
        name: "nelly_s".to_string(),
        visibility: 1,
        verified: true,
        revoked: false,
    }
}

fn guild() -> Guild {
    Guild {
        id: "41771983423143937".to_string(),
        name: "Developers".to_string(),
        is_owner: false,
        permissions: "2056".to_string(),
        icon: Some("a_86e39f".to_string()),
        banner: None,
        member_count: 12345,
    }
}

fn relationship() -> Relationship {
    Relationship {
        id: "53908232506183680".to_string(),
        is_spam_request: false,
        nickname: None,
        user: PublicUser {
            id: "53908232506183680".to_string(),
            avatar: Some("a1b2".to_string()),
            global_name: None,
            public_flags: 256 | 4194304,
            username: "mason".to_string(),
            discriminator: "0001".to_string(),
        },
        friendship_since: "2020-05-05T10:00:00+00:00".to_string(),
        friend_type: 1,
    }
}

fn nitro() -> Nitro {
    Nitro {
        id: "sub-1".to_string(),
        nitro_type: 2,
        created_at: "2023-01-01T00:00:00+00:00".to_string(),
        canceled_at: None,
        start_time: Some("2023-01-01T00:00:00+00:00".to_string()),
        end_time: Some("not a time".to_string()),
    }
}

fn boost(used: bool) -> Boost {
    Boost {
        id: "slot-1".to_string(),
        subscription_id: "sub-1".to_string(),
        premium_guild_subscription: if used {
            Some(PremiumGuildSubscription {
                id: "pgs".to_string(),
                user_id: "u".to_string(),
                guild_id: "41771983423143937".to_string(),
                ended: false,
                pause_ends_at: None,
            })
        } else {
            None
        },
        canceled: !used,
        ends: "2024-08-30T23:41:13.947000+00:00".to_string(),
    }
}

fn promotion() -> Promotion {
    Promotion {
        outbound_title: "Three months of music".to_string(),
        start_time: "2024-01-01T00:00:00+00:00".to_string(),
        end_date: "2024-02-01T12:30:00+00:00".to_string(),
        link: "https://example.com/redeem".to_string(),
        code: "ABCD-EFGH".to_string(),
    }
}

fn gift(name: &str) -> Gift {
    Gift { subscription_plan: Some(SubscriptionPlan { name: name.to_string() }) }
}

#[test]
fn entry_of_a_connection() {
    assert_eq!(
        connection().show(0, 3),
        "\nConnection #0 of 3\n\nConnection type: steam\nName: nelly_s\nVisible: true\nVerified: true\nRevoked: false\n\n"
    );
}

#[test]
fn hidden_connection_is_not_visible() {
    let mut hidden = connection();
    hidden.visibility = 0;
    hidden.revoked = true;
    assert_eq!(
        hidden.show(2, 3),
        "\nConnection #2 of 3\n\nConnection type: steam\nName: nelly_s\nVisible: false\nVerified: true\nRevoked: true\n\n"
    );
}

#[test]
fn entry_of_a_guild() {
    assert_eq!(
        guild().show(0, 1),
        "Guild #1 of 1\nID: 41771983423143937\nName: Developers\nIs user owner: false\nUser permissions: Administrator, Send Messages\nIcon: https://cdn.discordapp.com/avatars/41771983423143937/a_86e39f.gif\nBanner: No banner provided\nMember count: 12345\n\n"
    );
}

#[test]
fn guild_without_icon_and_with_banner() {
    let mut other = guild();
    other.icon = None;
    other.banner = Some("b4".to_string());
    other.permissions = "none".to_string();
    other.is_owner = true;
    other.member_count = -1;
    assert_eq!(
        other.show(4, 9),
        "Guild #5 of 9\nID: 41771983423143937\nName: Developers\nIs user owner: true\nUser permissions: \nIcon: No icon provided\nBanner: https://cdn.discordapp.com/banners/41771983423143937/b4.png\nMember count: -1\n\n"
    );
}

#[test]
fn identity_with_the_credential_in_full() {
    assert_eq!(
        identity().show(false),
        "\nToken: abc.def.ghij\n\nID: 80351110224678912\nusername: nelly\nFull name: nelly#1337\nAvatar: https://cdn.discordapp.com/avatars/80351110224678912/8342.png\nBanner: No banner provided\nBanner color: #ff00ff\nE-mail: nelly@example.com\nPhone: No phone provided\nMFA: true\nBio: No bio provided\n"
    );
}

#[test]
fn identity_with_the_credential_hidden() {
    let mut info = identity();
    info.avatar = None;
    info.banner = Some("https://cdn.discordapp.com/banners/80351110224678912/a_1.gif".to_string());
    info.banner_color = None;
    info.phone = Some("+4900000".to_string());
    info.bio = Some("hi".to_string());
    info.mfa_enabled = false;
    assert_eq!(
        info.show(true),
        "\nToken: abc.def.****\n\nID: 80351110224678912\nusername: nelly\nFull name: nelly#1337\nAvatar: No banner provided\nBanner: https://cdn.discordapp.com/banners/80351110224678912/a_1.gif\nBanner color: No banner color provided\nE-mail: nelly@example.com\nPhone: +4900000\nMFA: false\nBio: hi\n"
    );
}

#[test]
fn entry_of_a_relationship() {
    assert_eq!(
        relationship().show(1, 2),
        "Friend #2 of 2\n\nID: 53908232506183680\nAvatar: https://cdn.discordapp.com/avatars/53908232506183680/a1b2.png\nNickname: No nickname\nName#tag: mason#0001\nFriend type: Friend\nFlags: House Balance Member,Active Developer\nFriends since: 05.05.2020 10:00:00\n\n"
    );
}

#[test]
fn relationship_without_avatar_flags_or_known_kind() {
    let mut other = relationship();
    other.user.avatar = None;
    other.user.public_flags = 0;
    other.nickname = Some("Mace".to_string());
    other.friend_type = 12;
    other.friendship_since = "long ago".to_string();
    assert_eq!(
        other.show(0, 1),
        "Friend #1 of 1\n\nID: 53908232506183680\nAvatar: No avatar provided\nNickname: Mace\nName#tag: mason#0001\nFriend type: Unknown type\nFlags: No public flags available\nFriends since: long ago\n\n"
    );
}

#[test]
fn entry_of_a_subscription() {
    assert_eq!(
        nitro().show(0, 1),
        "\nNitro info #1 of 1\n\nId: sub-1\nStart time: 01.01.2023 00:00:00\nEnd time: not a time\nCancelation time: no cancellation time provided\nNitro type: nitro classic\n\n"
    );
}

#[test]
fn tiers_of_subscriptions() {
    assert_eq!(Nitro::tier_name(1), "nitro");
    assert_eq!(Nitro::tier_name(2), "nitro classic");
    assert_eq!(Nitro::tier_name(3), "nitro basic");
    assert_eq!(Nitro::tier_name(0), "unknown type");
    assert_eq!(Nitro::tier_name(4), "unknown type");
}

#[test]
fn subscription_without_times() {
    let mut other = nitro();
    other.start_time = None;
    other.end_time = None;
    other.canceled_at = Some("2023-06-01T08:09:10+00:00".to_string());
    other.nitro_type = 3;
    assert_eq!(
        other.show(2, 5),
        "\nNitro info #3 of 5\n\nId: sub-1\nStart time: no start time provided\nEnd time: no end time provided\nCancelation time: 01.06.2023 08:09:10\nNitro type: nitro basic\n\n"
    );
}

#[test]
fn entry_of_a_used_boost() {
    assert_eq!(
        boost(true).show(0, 2),
        "\nBoost #1 of 2\n\nIs used: Yes\nSubscription ID: sub-1\nGuild ID: 41771983423143937\nCanceled: No\nEnds: 30.08.2024 23:41:13\n\n"
    );
}

#[test]
fn entry_of_an_unused_boost() {
    assert_eq!(
        boost(false).show(1, 2),
        "\nBoost #2 of 2\n\nIs used: No\nSubscription ID: sub-1\nGuild ID: No guild (unused)\nCanceled: Yes\nEnds: 30.08.2024 23:41:13\n\n"
    );
}

#[test]
fn entry_of_a_promotion() {
    assert_eq!(
        promotion().show(0, 4),
        "\nPromotion #1 of 4\n\nTitle: Three months of music\nStart date: 01.01.2024 00:00:00\nEnd date: 01.02.2024 12:30:00\nLink: https://example.com/redeem\nCode: ABCD-EFGH\n\n"
    );
}

#[test]
fn entry_of_a_gift() {
    assert_eq!(
        gift("Nitro Monthly").show(0, 1),
        "\nGift info #1 of 1\n\nSubscription name: Nitro Monthly\n"
    );
}

#[test]
fn report_on_an_account_without_records() {
    let record = TokenResult {
        main_info: identity(),
        connections: Vec::new(),
        relationships: Vec::new(),
        promotions: Vec::new(),
        rate_limited: false,
        guilds: Vec::new(),
        boosts: Vec::new(),
        nitro_info: Vec::new(),
        nitro_credits: (0, 0),
        gifts: Vec::new(),
    };
    assert!(record.can_show());
    let expected = identity().show(true)
        + "----------------------------- CONNECTIONS -----------------------------\n"
        + "No connections available\n\n"
        + "----------------------------- RELATIONSHIPS -----------------------------\n"
        + "No relationships available\n\n"
        + "----------------------------- GUILDS -----------------------------\n"
        + "No guilds available\n\n"
        + "----------------------------- BOOSTS -----------------------------\n"
        + "No boosts available\n\n"
        + "----------------------------- PROMOTIONS -------------------------\n"
        + "No promotions available\n\n"
        + "-------------------------- NITRO & GIFTS -------------------------\n"
        + "NITRO INFO:\n\n"
        + "No basic Nitro info available\n\n"
        + "\nNitro credits:\n\nClassic: 0\nBoost: 0\n\n"
        + "GIFTS INFO:\n\n"
        + "No gifts available\n\n";
    assert_eq!(record.show(true), expected);
}

#[test]
fn report_on_an_account_with_records() {
    let record = TokenResult {
        main_info: identity(),
        connections: vec![connection(), connection()],
        relationships: vec![relationship()],
        promotions: vec![promotion()],
        rate_limited: true,
        guilds: vec![guild()],
        boosts: vec![boost(true), boost(false)],
        nitro_info: vec![nitro()],
        nitro_credits: (3, 14),
        gifts: vec![gift("Nitro Monthly"), gift("Nitro Classic Monthly")],
    };
    assert!(record.can_show());
    let expected = identity().show(false)
        + "Request was rate-limited: a section without entries may be incomplete\n"
        + "----------------------------- CONNECTIONS -----------------------------\n"
        + &connection().show(0, 2)
        + &connection().show(1, 2)
        + "----------------------------- RELATIONSHIPS -----------------------------\n"
        + &relationship().show(0, 1)
        + "----------------------------- GUILDS -----------------------------\n"
        + &guild().show(0, 1)
        + "----------------------------- BOOSTS -----------------------------\n"
        + &boost(true).show(0, 2)
        + &boost(false).show(1, 2)
        + "----------------------------- PROMOTIONS -------------------------\n"
        + &promotion().show(0, 2)
        + "-------------------------- NITRO & GIFTS -------------------------\n"
        + "NITRO INFO:\n\n"
        + &nitro().show(0, 1)
        + "\nNitro credits:\n\nClassic: 3\nBoost: 14\n\n"
        + "GIFTS INFO:\n\n"
        + &gift("Nitro Monthly").show(0, 2)
        + &gift("Nitro Classic Monthly").show(1, 2);
    assert_eq!(record.show(false), expected);
}

#[test]
fn gift_without_a_plan_cannot_be_shown() {
    let record = TokenResult {
        main_info: identity(),
        connections: Vec::new(),
        relationships: Vec::new(),
        promotions: Vec::new(),
        rate_limited: false,
        guilds: Vec::new(),
        boosts: Vec::new(),
        nitro_info: Vec::new(),
        nitro_credits: (0, 0),
        gifts: vec![gift("Nitro Monthly"), Gift { subscription_plan: None }],
    };
    assert!(!record.can_show());
}

fn bare_record(rate_limited: bool, gifts: Vec<Gift>) -> TokenResult {
    TokenResult {
        main_info: identity(),
        connections: Vec::new(),
        relationships: Vec::new(),
        promotions: Vec::new(),
        rate_limited,
        guilds: Vec::new(),
        boosts: Vec::new(),
        nitro_info: Vec::new(),
        nitro_credits: (0, 0),
        gifts,
    }
}

#[test]
fn rate_limit_is_said_in_a_line_of_its_own() {
    let limited = bare_record(true, Vec::new()).show(false);
    let unlimited = bare_record(false, Vec::new()).show(false);
    let notice = "Request was rate-limited: a section without entries may be incomplete\n";
    assert_eq!(RATE_LIMITED_NOTICE, notice);
    assert!(limited.contains(notice));
    assert!(!unlimited.contains("rate-limited"));
    assert_eq!(limited, unlimited.replacen("Bio: No bio provided\n", &format!("Bio: No bio provided\n{}", notice), 1));
    assert!(limited.contains("No guilds available\n\n"));
}

#[test]
fn sections_before_the_gifts() {
    let record = bare_record(true, vec![gift("Nitro Monthly")]);
    let head = record.show_before_gifts(true);
    assert!(head.starts_with(&identity().show(true)));
    assert!(head.ends_with("GIFTS INFO:\n\n"));
    assert_eq!(
        head,
        identity().show(true)
            + "Request was rate-limited: a section without entries may be incomplete\n"
            + &record.show_sections()
    );
    assert_eq!(record.show(true), head + &gift("Nitro Monthly").show(0, 1));
}

#[test]
fn whole_report_is_written_where_it_can_be() {
    let record = bare_record(false, vec![gift("Nitro Monthly"), gift("Nitro Classic Monthly")]);
    assert_eq!(record.show_partial(false), (record.show(false), true));
    let empty = bare_record(false, Vec::new());
    assert_eq!(empty.show_partial(true), (empty.show(true), true));
}

#[test]
fn report_breaks_off_before_a_gift_without_a_plan() {
    let record = bare_record(
        false,
        vec![gift("Nitro Monthly"), Gift { subscription_plan: None }, gift("Nitro Monthly")],
    );
    assert_eq!(
        record.show_partial(false),
        (record.show_before_gifts(false) + &gift("Nitro Monthly").show(0, 3), false)
    );
    let stuck_at_once = bare_record(true, vec![Gift { subscription_plan: None }]);
    assert_eq!(
        stuck_at_once.show_partial(true),
        (stuck_at_once.show_before_gifts(true), false)
    );
}
