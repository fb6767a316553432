//! Guilds that the checked account is a member of.

use vstd::prelude::*;
use crate::utils::constants::USER_PERMISSIONS_LEN;
use crate::utils::enums::{BannerType, CdnType};
use crate::utils::text::{
    bool_to_str, decimal, join, joined, signed_decimal, signed_to_string, truth_word,
    unsigned_to_string,
};
use crate::utils::{
    asset_url, is_animated, extension_for, permission_bits,
    permission_names, Utils,
};

verus! {

/// One guild membership.
#[derive(Debug, Clone, PartialEq, Eq)]
pub struct Guild {
    pub id: String,
    pub name: String,
    pub is_owner: bool,
    /// The member's permission bits, written as a decimal numeral.
    pub permissions: String,
    /// The hash of the guild's icon, where it has one.
    pub icon: Option<String>,
    /// The hash of the guild's banner, where it has one.
    pub banner: Option<String>,
    pub member_count: i128,
}

impl Guild {
    /// The entry of the guild in the report, as number `index + 1` of
    /// `all_guilds`.
    pub open spec fn shown(&self, index: usize, all_guilds: usize) -> Seq<char> {
        "Guild #"@
            + decimal((index + 1) as nat)
            + " of "@
            + decimal(all_guilds as nat)
            + "\nID: "@
            + self.id@
            + "\nName: "@
            + self.name@
            + "\nIs user owner: "@
            + truth_word(self.is_owner)
            + "\nUser permissions: "@
            + joined(
                permission_names(permission_bits(self.permissions@), USER_PERMISSIONS_LEN as int),
                ", "@,
            )
            + "\nIcon: "@
            + match self.icon {
                Some(hash) => asset_url(
                    CdnType::UserAvatar,
                    self.id@,
                    hash@,
                    extension_for(is_animated(hash@)),
                ),
                None => "No icon provided"@,
            }
            + "\nBanner: "@
            + match self.banner {
                Some(hash) => asset_url(
                    CdnType::Banner(BannerType::Guild),
                    self.id@,
                    hash@,
                    extension_for(is_animated(hash@)),
                ),
                None => "No banner provided"@,
            }
            + "\nMember count: "@
            + signed_decimal(self.member_count as int)
            + "\n\n"@
    }

    /// Writes the entry of the guild in the report.
    pub fn show(&self, index: usize, all_guilds: usize) -> (shown: String)
        ensures
            shown@ == self.shown(index, all_guilds),
    {
        let mut out = String::new();
        out.append("Guild #");
        {
            let written = unsigned_to_string(index as u128 + 1);
            out.append(written.as_str());
        }
        out.append(" of ");
        {
            let written = unsigned_to_string(all_guilds as u128);
            out.append(written.as_str());
        }
        out.append("\nID: ");
        out.append(self.id.as_str());
        out.append("\nName: ");
        out.append(self.name.as_str());
        out.append("\nIs user owner: ");
        out.append(bool_to_str(self.is_owner));
        out.append("\nUser permissions: ");
        {
            let names = Utils::get_user_permissions(self.permissions.as_str());
            let list = join(&names, ", ");
            out.append(list.as_str());
        }
        out.append("\nIcon: ");
        match &self.icon {
            Some(hash) => {
                let url = Utils::get_avatar(&self.id, hash);
                out.append(url.as_str());
            },
            None => out.append("No icon provided"),
        }
        out.append("\nBanner: ");
        match &self.banner {
            Some(hash) => {
                let url = Utils::get_banner(BannerType::Guild, &self.id, hash);
                out.append(url.as_str());
            },
            None => out.append("No banner provided"),
        }
        out.append("\nMember count: ");
        {
            let written = signed_to_string(self.member_count);
            out.append(written.as_str());
        }
        out.append("\n\n");
        out
    }
}

} // verus!
