//! Fixed values of the upstream service: its roots, and the tables that
//! give names to the bits of its flag fields.

use vstd::prelude::*;

verus! {

/// The root under which the content delivery network serves assets.
pub const DISCORD_CDN_BASE: &'static str = "https://cdn.discordapp.com";

/// The name of the plan that a credit of the classic tier gives.
pub const CLASSIC_CREDIT_PLAN: &'static str = "Nitro Classic Monthly";

/// The name of the plan that a credit of the boost tier gives.
pub const BOOST_CREDIT_PLAN: &'static str = "Nitro Monthly";

/// The label shown for a relationship kind that the table does not hold.
pub const UNKNOWN_FRIEND_TYPE: &'static str = "Unknown type";

/// The number of entries of the table of public account flags.
pub const USER_FLAGS_LEN: usize = 16;

/// The key of entry `i` of the table of public account flags.
pub open spec fn user_flag_key(i: int) -> i128 {
    if i == 0 {
        0
    } else if i == 1 {
        1
    } else if i == 2 {
        2
    } else if i == 3 {
        4
    } else if i == 4 {
        8
    } else if i == 5 {
        64
    } else if i == 6 {
        128
    } else if i == 7 {
        256
    } else if i == 8 {
        512
    } else if i == 9 {
        1024
    } else if i == 10 {
        16384
    } else if i == 11 {
        65536
    } else if i == 12 {
        131072
    } else if i == 13 {
        262144
    } else if i == 14 {
        524288
    } else {
        4194304
    }
}

/// The label of entry `i` of the table of public account flags.
pub open spec fn user_flag_label(i: int) -> Seq<char> {
    if i == 0 {
        "None"@
    } else if i == 1 {
        "Discord Employee"@
    } else if i == 2 {
        "Partnered Server Owner"@
    } else if i == 3 {
        "HypeSquad Events Member"@
    } else if i == 4 {
        "Bug Hunter Level 1"@
    } else if i == 5 {
        "House Bravery Member"@
    } else if i == 6 {
        "House Brilliance Member"@
    } else if i == 7 {
        "House Balance Member"@
    } else if i == 8 {
        "Early Nitro Supporter"@
    } else if i == 9 {
        "Team User"@
    } else if i == 10 {
        "Bug Hunter Level 2"@
    } else if i == 11 {
        "Verified Bot"@
    } else if i == 12 {
        "Early Verified Bot Developer"@
    } else if i == 13 {
        "Moderator Programs Alumni"@
    } else if i == 14 {
        "Bot HTTP Interactions"@
    } else {
        "Active Developer"@
    }
}

/// Entry `i` of the table of public account flags:
/// a bit mask of the public flags of an account, and its name.
pub fn user_flag(i: usize) -> (entry: (i128, &'static str))
    requires
        i < USER_FLAGS_LEN,
    ensures
        entry.0 == user_flag_key(i as int),
        entry.1@ == user_flag_label(i as int),
{
    if i == 0 {
        (0, "None")
    } else if i == 1 {
        (1, "Discord Employee")
    } else if i == 2 {
        (2, "Partnered Server Owner")
    } else if i == 3 {
        (4, "HypeSquad Events Member")
    } else if i == 4 {
        (8, "Bug Hunter Level 1")
    } else if i == 5 {
        (64, "House Bravery Member")
    } else if i == 6 {
        (128, "House Brilliance Member")
    } else if i == 7 {
        (256, "House Balance Member")
    } else if i == 8 {
        (512, "Early Nitro Supporter")
    } else if i == 9 {
        (1024, "Team User")
    } else if i == 10 {
        (16384, "Bug Hunter Level 2")
    } else if i == 11 {
        (65536, "Verified Bot")
    } else if i == 12 {
        (131072, "Early Verified Bot Developer")
    } else if i == 13 {
        (262144, "Moderator Programs Alumni")
    } else if i == 14 {
        (524288, "Bot HTTP Interactions")
    } else {
        (4194304, "Active Developer")
    }
}

/// The number of entries of the table of member permissions.
pub const USER_PERMISSIONS_LEN: usize = 49;

/// The key of entry `i` of the table of member permissions.
pub open spec fn user_permission_key(i: int) -> i128 {
    if i == 0 {
        1
    } else if i == 1 {
        2
    } else if i == 2 {
        4
    } else if i == 3 {
        8
    } else if i == 4 {
        16
    } else if i == 5 {
        32
    } else if i == 6 {
        64
    } else if i == 7 {
        128
    } else if i == 8 {
        256
    } else if i == 9 {
        512
    } else if i == 10 {
        1024
    } else if i == 11 {
        2048
    } else if i == 12 {
        4096
    } else if i == 13 {
        8192
    } else if i == 14 {
        16384
    } else if i == 15 {
        32768
    } else if i == 16 {
        65536
    } else if i == 17 {
        131072
    } else if i == 18 {
        262144
    } else if i == 19 {
        524288
    } else if i == 20 {
        1048576
    } else if i == 21 {
        2097152
    } else if i == 22 {
        4194304
    } else if i == 23 {
        8388608
    } else if i == 24 {
        16777216
    } else if i == 25 {
        33554432
    } else if i == 26 {
        67108864
    } else if i == 27 {
        134217728
    } else if i == 28 {
        268435456
    } else if i == 29 {
        536870912
    } else if i == 30 {
        1073741824
    } else if i == 31 {
        2147483648
    } else if i == 32 {
        4294967296
    } else if i == 33 {
        8589934592
    } else if i == 34 {
        17179869184
    } else if i == 35 {
        34359738368
    } else if i == 36 {
        68719476736
    } else if i == 37 {
        137438953472
    } else if i == 38 {
        274877906944
    } else if i == 39 {
        549755813888
    } else if i == 40 {
        1099511627776
    } else if i == 41 {
        2199023255552
    } else if i == 42 {
        4398046511104
    } else if i == 43 {
        8796093022208
    } else if i == 44 {
        17592186044416
    } else if i == 45 {
        35184372088832
    } else if i == 46 {
        70368744177664
    } else if i == 47 {
        562949953421312
    } else {
        1125899906842624
    }
}

/// The label of entry `i` of the table of member permissions.
pub open spec fn user_permission_label(i: int) -> Seq<char> {
    if i == 0 {
        "Create Instant Invite"@
    } else if i == 1 {
        "Kick Members"@
    } else if i == 2 {
        "Ban Members"@
    } else if i == 3 {
        "Administrator"@
    } else if i == 4 {
        "Manage Channels"@
    } else if i == 5 {
        "Manage Guild"@
    } else if i == 6 {
        "Add Reactions"@
    } else if i == 7 {
        "View Audit Log"@
    } else if i == 8 {
        "Priority Speaker"@
    } else if i == 9 {
        "Stream"@
    } else if i == 10 {
        "View Channel"@
    } else if i == 11 {
        "Send Messages"@
    } else if i == 12 {
        "Send TTS Messages"@
    } else if i == 13 {
        "Manage Messages"@
    } else if i == 14 {
        "Embed Links"@
    } else if i == 15 {
        "Attach Files"@
    } else if i == 16 {
        "Read Message History"@
    } else if i == 17 {
        "Mention Everyone"@
    } else if i == 18 {
        "Use External Emojis"@
    } else if i == 19 {
        "View Guild Insights"@
    } else if i == 20 {
        "Connect"@
    } else if i == 21 {
        "Speak"@
    } else if i == 22 {
        "Mute Members"@
    } else if i == 23 {
        "Deafen Members"@
    } else if i == 24 {
        "Move Members"@
    } else if i == 25 {
        "Use Voice Activity Detection"@
    } else if i == 26 {
        "Change Nickname"@
    } else if i == 27 {
        "Manage Nicknames"@
    } else if i == 28 {
        "Manage Roles"@
    } else if i == 29 {
        "Manage Webhooks"@
    } else if i == 30 {
        "Manage Guild Expressions"@
    } else if i == 31 {
        "Use Application Commands"@
    } else if i == 32 {
        "Request To Speak"@
    } else if i == 33 {
        "Manage Events"@
    } else if i == 34 {
        "Manage Threads"@
    } else if i == 35 {
        "Create Public Threads"@
    } else if i == 36 {
        "Create Private Threads"@
    } else if i == 37 {
        "Use External Stickers"@
    } else if i == 38 {
        "Send Messages In Threads"@
    } else if i == 39 {
        "Use Embedded Activities"@
    } else if i == 40 {
        "Moderate Members"@
    } else if i == 41 {
        "View Creator Monetization Analytics"@
    } else if i == 42 {
        "Use Soundboard"@
    } else if i == 43 {
        "Create Guild Expressions"@
    } else if i == 44 {
        "Create Events"@
    } else if i == 45 {
        "Use External Sounds"@
    } else if i == 46 {
        "Send Voice Messages"@
    } else if i == 47 {
        "Send Polls"@
    } else {
        "Use External Apps"@
    }
}

/// Entry `i` of the table of member permissions:
/// a bit mask of the permissions of a member, and its name.
pub fn user_permission(i: usize) -> (entry: (i128, &'static str))
    requires
        i < USER_PERMISSIONS_LEN,
    ensures
        entry.0 == user_permission_key(i as int),
        entry.1@ == user_permission_label(i as int),
{
    if i == 0 {
        (1, "Create Instant Invite")
    } else if i == 1 {
        (2, "Kick Members")
    } else if i == 2 {
        (4, "Ban Members")
    } else if i == 3 {
        (8, "Administrator")
    } else if i == 4 {
        (16, "Manage Channels")
    } else if i == 5 {
        (32, "Manage Guild")
    } else if i == 6 {
        (64, "Add Reactions")
    } else if i == 7 {
        (128, "View Audit Log")
    } else if i == 8 {
        (256, "Priority Speaker")
    } else if i == 9 {
        (512, "Stream")
    } else if i == 10 {
        (1024, "View Channel")
    } else if i == 11 {
        (2048, "Send Messages")
    } else if i == 12 {
        (4096, "Send TTS Messages")
    } else if i == 13 {
        (8192, "Manage Messages")
    } else if i == 14 {
        (16384, "Embed Links")
    } else if i == 15 {
        (32768, "Attach Files")
    } else if i == 16 {
        (65536, "Read Message History")
    } else if i == 17 {
        (131072, "Mention Everyone")
    } else if i == 18 {
        (262144, "Use External Emojis")
    } else if i == 19 {
        (524288, "View Guild Insights")
    } else if i == 20 {
        (1048576, "Connect")
    } else if i == 21 {
        (2097152, "Speak")
    } else if i == 22 {
        (4194304, "Mute Members")
    } else if i == 23 {
        (8388608, "Deafen Members")
    } else if i == 24 {
        (16777216, "Move Members")
    } else if i == 25 {
        (33554432, "Use Voice Activity Detection")
    } else if i == 26 {
        (67108864, "Change Nickname")
    } else if i == 27 {
        (134217728, "Manage Nicknames")
    } else if i == 28 {
        (268435456, "Manage Roles")
    } else if i == 29 {
        (536870912, "Manage Webhooks")
    } else if i == 30 {
        (1073741824, "Manage Guild Expressions")
    } else if i == 31 {
        (2147483648, "Use Application Commands")
    } else if i == 32 {
        (4294967296, "Request To Speak")
    } else if i == 33 {
        (8589934592, "Manage Events")
    } else if i == 34 {
        (17179869184, "Manage Threads")
    } else if i == 35 {
        (34359738368, "Create Public Threads")
    } else if i == 36 {
        (68719476736, "Create Private Threads")
    } else if i == 37 {
        (137438953472, "Use External Stickers")
    } else if i == 38 {
        (274877906944, "Send Messages In Threads")
    } else if i == 39 {
        (549755813888, "Use Embedded Activities")
    } else if i == 40 {
        (1099511627776, "Moderate Members")
    } else if i == 41 {
        (2199023255552, "View Creator Monetization Analytics")
    } else if i == 42 {
        (4398046511104, "Use Soundboard")
    } else if i == 43 {
        (8796093022208, "Create Guild Expressions")
    } else if i == 44 {
        (17592186044416, "Create Events")
    } else if i == 45 {
        (35184372088832, "Use External Sounds")
    } else if i == 46 {
        (70368744177664, "Send Voice Messages")
    } else if i == 47 {
        (562949953421312, "Send Polls")
    } else {
        (1125899906842624, "Use External Apps")
    }
}

/// The number of entries of the table of relationship kinds.
pub const FRIEND_TYPE_LEN: usize = 4;

/// The key of entry `i` of the table of relationship kinds.
pub open spec fn friend_type_key(i: int) -> i32 {
    if i == 0 {
        1
    } else if i == 1 {
        2
    } else if i == 2 {
        3
    } else {
        4
    }
}

/// The label of entry `i` of the table of relationship kinds.
pub open spec fn friend_type_label(i: int) -> Seq<char> {
    if i == 0 {
        "Friend"@
    } else if i == 1 {
        "Blocked"@
    } else if i == 2 {
        "Incoming friend request"@
    } else {
        "Outgoing friend request"@
    }
}

/// Entry `i` of the table of relationship kinds:
/// a relationship kind as the upstream numbers it, and its name.
pub fn friend_type(i: usize) -> (entry: (i32, &'static str))
    requires
        i < FRIEND_TYPE_LEN,
    ensures
        entry.0 == friend_type_key(i as int),
        entry.1@ == friend_type_label(i as int),
{
    if i == 0 {
        (1, "Friend")
    } else if i == 1 {
        (2, "Blocked")
    } else if i == 2 {
        (3, "Incoming friend request")
    } else {
        (4, "Outgoing friend request")
    }
}

} // verus!
