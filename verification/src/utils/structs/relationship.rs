//! Other accounts that the checked one is related to.

use vstd::prelude::*;
use crate::utils::constants::{FRIEND_TYPE_LEN, USER_FLAGS_LEN};
use crate::utils::enums::CdnType;
use crate::utils::text::{decimal, join, joined, text_or, unsigned_to_string};
use crate::utils::{
    asset_url, is_animated, extension_for, flag_names, friend_type_name, shown_time, Utils,
};

verus! {

/// What an account shows of itself to others.
#[derive(Debug, Clone, PartialEq, Eq)]
pub struct PublicUser {
    pub id: String,
    /// The hash of the avatar, where the account has one.
    pub avatar: Option<String>,
    pub global_name: Option<String>,
    pub public_flags: i128,
    pub username: String,
    pub discriminator: String,
}

/// One relationship of the checked account.
#[derive(Debug, Clone, PartialEq, Eq)]
pub struct Relationship {
    pub id: String,
    pub is_spam_request: bool,
    pub nickname: Option<String>,
    pub user: PublicUser,
    pub friendship_since: String,
    /// The kind of relationship, as the upstream numbers it.
    pub friend_type: i32,
}

impl Relationship {
    /// The entry of the relationship in the report, as number `index + 1` of
    /// `all_friends`.
    pub open spec fn shown(&self, index: usize, all_friends: usize) -> Seq<char> {
        "Friend #"@
            + decimal((index + 1) as nat)
            + " of "@
            + decimal(all_friends as nat)
            + "\n\nID: "@
            + self.id@
            + "\nAvatar: "@
            + match self.user.avatar {
                Some(hash) => asset_url(
                    CdnType::UserAvatar,
                    self.id@,
                    hash@,
                    extension_for(is_animated(hash@)),
                ),
                None => "No avatar provided"@,
            }
            + "\nNickname: "@
            + text_or(self.nickname, "No nickname"@)
            + "\nName#tag: "@
            + self.user.username@
            + "#"@
            + self.user.discriminator@
            + "\nFriend type: "@
            + friend_type_name(self.friend_type, FRIEND_TYPE_LEN as int)
            + "\nFlags: "@
            + if flag_names(self.user.public_flags, USER_FLAGS_LEN as int).len() == 0 {
                "No public flags available"@
            } else {
                joined(flag_names(self.user.public_flags, USER_FLAGS_LEN as int), ","@)
            }
            + "\nFriends since: "@
            + shown_time(self.friendship_since@)
            + "\n\n"@
    }

    /// Writes the entry of the relationship in the report.
    pub fn show(&self, index: usize, all_friends: usize) -> (shown: String)
        ensures
            shown@ == self.shown(index, all_friends),
    {
        let mut out = String::new();
        out.append("Friend #");
        {
            let written = unsigned_to_string(index as u128 + 1);
            out.append(written.as_str());
        }
        out.append(" of ");
        {
            let written = unsigned_to_string(all_friends as u128);
            out.append(written.as_str());
        }
        out.append("\n\nID: ");
        out.append(self.id.as_str());
        out.append("\nAvatar: ");
        match &self.user.avatar {
            Some(hash) => {
                let url = Utils::get_avatar(&self.id, hash);
                out.append(url.as_str());
            },
            None => out.append("No avatar provided"),
        }
        out.append("\nNickname: ");
        match &self.nickname {
            Some(text) => out.append(text.as_str()),
            None => out.append("No nickname"),
        }
        out.append("\nName#tag: ");
        out.append(self.user.username.as_str());
        out.append("#");
        out.append(self.user.discriminator.as_str());
        out.append("\nFriend type: ");
        out.append(Utils::friend_type_label(self.friend_type));
        out.append("\nFlags: ");
        {
            let flags = Utils::get_user_flags(self.user.public_flags);
            if flags.len() == 0 {
                out.append("No public flags available");
            } else {
                let list = join(&flags, ",");
                out.append(list.as_str());
            }
        }
        out.append("\nFriends since: ");
        {
            let since = Utils::show_time(&self.friendship_since);
            out.append(since.as_str());
        }
        out.append("\n\n");
        out
    }
}

} // verus!
