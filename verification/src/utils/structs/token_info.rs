//! The identity that a credential belongs to.

use vstd::prelude::*;
use crate::utils::text::{bool_to_str, text_or, truth_word};
use crate::utils::{masked, Utils};
use crate::utils::text::opt_text;

verus! {

/// The identity record of one account. The upstream sends every field but
/// the last two, which the gateway fills in.
#[derive(Debug, Clone, PartialEq, Eq)]
pub struct TokenInfo {
    pub id: String,
    pub username: String,
    pub global_name: Option<String>,
    pub discriminator: String,
    /// As sent: the hash of the avatar. As returned by the gateway: its
    /// address.
    pub avatar: Option<String>,
    /// As sent: the hash of the banner. As returned by the gateway: its
    /// address.
    pub banner: Option<String>,
    pub banner_color: Option<String>,
    pub email: String,
    pub locale: String,
    pub phone: Option<String>,
    pub mfa_enabled: bool,
    pub bio: Option<String>,
    pub public_flags: i128,
    /// User name and discriminator, joined by `#`.
    pub fullname: String,
    /// The credential that the record was fetched with.
    pub token: String,
}

/// The mathematical value of a [`TokenInfo`].
pub ghost struct TokenInfoView {
    pub id: Seq<char>,
    pub username: Seq<char>,
    pub global_name: Option<Seq<char>>,
    pub discriminator: Seq<char>,
    pub avatar: Option<Seq<char>>,
    pub banner: Option<Seq<char>>,
    pub banner_color: Option<Seq<char>>,
    pub email: Seq<char>,
    pub locale: Seq<char>,
    pub phone: Option<Seq<char>>,
    pub mfa_enabled: bool,
    pub bio: Option<Seq<char>>,
    pub public_flags: i128,
    pub fullname: Seq<char>,
    pub token: Seq<char>,
}

impl View for TokenInfo {
    type V = TokenInfoView;

    open spec fn view(&self) -> TokenInfoView {
        TokenInfoView {
            id: self.id@,
            username: self.username@,
            global_name: opt_text(self.global_name),
            discriminator: self.discriminator@,
            avatar: opt_text(self.avatar),
            banner: opt_text(self.banner),
            banner_color: opt_text(self.banner_color),
            email: self.email@,
            locale: self.locale@,
            phone: opt_text(self.phone),
            mfa_enabled: self.mfa_enabled,
            bio: opt_text(self.bio),
            public_flags: self.public_flags,
            fullname: self.fullname@,
            token: self.token@,
        }
    }
}

impl TokenInfo {
    /// The identity as the report shows it, the credential hidden in part
    /// where `mask_token` asks for it.
    pub open spec fn shown(&self, mask_token: bool) -> Seq<char> {
        "\nToken: "@
            + if mask_token {
                masked(self.token@)
            } else {
                self.token@
            }
            + "\n\nID: "@
            + self.id@
            + "\nusername: "@
            + self.username@
            + "\nFull name: "@
            + self.fullname@
            + "\nAvatar: "@
            + text_or(self.avatar, "No banner provided"@)
            + "\nBanner: "@
            + text_or(self.banner, "No banner provided"@)
            + "\nBanner color: "@
            + text_or(self.banner_color, "No banner color provided"@)
            + "\nE-mail: "@
            + self.email@
            + "\nPhone: "@
            + text_or(self.phone, "No phone provided"@)
            + "\nMFA: "@
            + truth_word(self.mfa_enabled)
            + "\nBio: "@
            + text_or(self.bio, "No bio provided"@)
            + "\n"@
    }

    /// Writes the identity as the report shows it.
    pub fn show(&self, mask_token: bool) -> (shown: String)
        ensures
            shown@ == self.shown(mask_token),
    {
        let mut out = String::new();
        out.append("\nToken: ");
        if mask_token {
            let hidden = Utils::mask_last_part(self.token.as_str());
            out.append(hidden.as_str());
        } else {
            out.append(self.token.as_str());
        }
        out.append("\n\nID: ");
        out.append(self.id.as_str());
        out.append("\nusername: ");
        out.append(self.username.as_str());
        out.append("\nFull name: ");
        out.append(self.fullname.as_str());
        out.append("\nAvatar: ");
        match &self.avatar {
            Some(text) => out.append(text.as_str()),
            None => out.append("No banner provided"),
        }
        out.append("\nBanner: ");
        match &self.banner {
            Some(text) => out.append(text.as_str()),
            None => out.append("No banner provided"),
        }
        out.append("\nBanner color: ");
        match &self.banner_color {
            Some(text) => out.append(text.as_str()),
            None => out.append("No banner color provided"),
        }
        out.append("\nE-mail: ");
        out.append(self.email.as_str());
        out.append("\nPhone: ");
        match &self.phone {
            Some(text) => out.append(text.as_str()),
            None => out.append("No phone provided"),
        }
        out.append("\nMFA: ");
        out.append(bool_to_str(self.mfa_enabled));
        out.append("\nBio: ");
        match &self.bio {
            Some(text) => out.append(text.as_str()),
            None => out.append("No bio provided"),
        }
        out.append("\n");
        out
    }
}

} // verus!
