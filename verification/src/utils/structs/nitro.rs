//! Paid subscriptions, boosts, promotional codes and gifts.

use vstd::prelude::*;
use crate::utils::text::{decimal, unsigned_to_string};
use crate::utils::{shown_time, Utils};

verus! {

/// A promotional code that the account can redeem elsewhere.
#[derive(Debug, Clone, PartialEq, Eq)]
pub struct Promotion {
    pub outbound_title: String,
    pub start_time: String,
    pub end_date: String,
    /// The page on which the code is redeemed.
    pub link: String,
    pub code: String,
}

/// The use that a boost slot is put to.
#[derive(Debug, Clone, PartialEq, Eq)]
pub struct PremiumGuildSubscription {
    pub id: String,
    pub user_id: String,
    pub guild_id: String,
    pub ended: bool,
    pub pause_ends_at: Option<String>,
}

/// A paid subscription of the account.
#[derive(Debug, Clone, PartialEq, Eq)]
pub struct Nitro {
    pub id: String,
    /// The tier, as the upstream numbers it.
    pub nitro_type: i32,
    pub created_at: String,
    pub canceled_at: Option<String>,
    pub start_time: Option<String>,
    pub end_time: Option<String>,
}

/// An entitlement that the account holds and has not consumed.
#[derive(Debug, Clone, PartialEq, Eq)]
pub struct Gift {
    pub subscription_plan: Option<SubscriptionPlan>,
}

/// The plan that an entitlement gives.
#[derive(Debug, Clone, PartialEq, Eq)]
pub struct SubscriptionPlan {
    pub name: String,
}

/// A boost slot of the account.
#[derive(Debug, Clone, PartialEq, Eq)]
pub struct Boost {
    pub id: String,
    pub subscription_id: String,
    /// Present where the slot is in use.
    pub premium_guild_subscription: Option<PremiumGuildSubscription>,
    pub canceled: bool,
    /// When the slot can be moved again.
    pub ends: String,
}

/// The word for a truth value where the report asks a question.
pub open spec fn yes_or_no(b: bool) -> Seq<char> {
    if b {
        "Yes"@
    } else {
        "No"@
    }
}

/// The name of a subscription tier, as the upstream numbers the tiers.
pub open spec fn nitro_type_name(tier: i32) -> Seq<char> {
    if tier == 1 {
        "nitro"@
    } else if tier == 2 {
        "nitro classic"@
    } else if tier == 3 {
        "nitro basic"@
    } else {
        "unknown type"@
    }
}

impl Gift {
    /// The entry of the gift in the report, as number `index + 1` of
    /// `all_gifts`.
    pub open spec fn shown(&self, index: usize, all_gifts: usize) -> Seq<char> {
        "\nGift info #"@
            + decimal((index + 1) as nat)
            + " of "@
            + decimal(all_gifts as nat)
            + "\n\nSubscription name: "@
            + self.subscription_plan->0.name@
            + "\n"@
    }

    /// Writes the entry of the gift in the report. The gift must name its
    /// plan.
    pub fn show(&self, index: usize, all_gifts: usize) -> (shown: String)
        requires
            self.subscription_plan is Some,
        ensures
            shown@ == self.shown(index, all_gifts),
    {
        let mut out = String::new();
        out.append("\nGift info #");
        {
            let written = unsigned_to_string(index as u128 + 1);
            out.append(written.as_str());
        }
        out.append(" of ");
        {
            let written = unsigned_to_string(all_gifts as u128);
            out.append(written.as_str());
        }
        out.append("\n\nSubscription name: ");
        match &self.subscription_plan {
            Some(plan) => out.append(plan.name.as_str()),
            None => {},
        }
        out.append("\n");
        out
    }
}

impl Nitro {
    /// Names a subscription tier.
    pub fn tier_name(tier: i32) -> (name: &'static str)
        ensures
            name@ == nitro_type_name(tier),
    {
        if tier == 1 {
            "nitro"
        } else if tier == 2 {
            "nitro classic"
        } else if tier == 3 {
            "nitro basic"
        } else {
            "unknown type"
        }
    }

    /// The entry of the subscription in the report, as number `index + 1` of
    /// `all_nitro`.
    pub open spec fn shown(&self, index: usize, all_nitro: usize) -> Seq<char> {
        "\nNitro info #"@
            + decimal((index + 1) as nat)
            + " of "@
            + decimal(all_nitro as nat)
            + "\n\nId: "@
            + self.id@
            + "\nStart time: "@
            + match self.start_time {
                Some(time) => shown_time(time@),
                None => "no start time provided"@,
            }
            + "\nEnd time: "@
            + match self.end_time {
                Some(time) => shown_time(time@),
                None => "no end time provided"@,
            }
            + "\nCancelation time: "@
            + match self.canceled_at {
                Some(time) => shown_time(time@),
                None => "no cancellation time provided"@,
            }
            + "\nNitro type: "@
            + nitro_type_name(self.nitro_type)
            + "\n\n"@
    }

    /// Writes the entry of the subscription in the report.
    pub fn show(&self, index: usize, all_nitro: usize) -> (shown: String)
        ensures
            shown@ == self.shown(index, all_nitro),
    {
        let mut out = String::new();
        out.append("\nNitro info #");
        {
            let written = unsigned_to_string(index as u128 + 1);
            out.append(written.as_str());
        }
        out.append(" of ");
        {
            let written = unsigned_to_string(all_nitro as u128);
            out.append(written.as_str());
        }
        out.append("\n\nId: ");
        out.append(self.id.as_str());
        out.append("\nStart time: ");
        match &self.start_time {
            Some(time) => {
                let written = Utils::show_time(time);
                out.append(written.as_str());
            },
            None => out.append("no start time provided"),
        }
        out.append("\nEnd time: ");
        match &self.end_time {
            Some(time) => {
                let written = Utils::show_time(time);
                out.append(written.as_str());
            },
            None => out.append("no end time provided"),
        }
        out.append("\nCancelation time: ");
        match &self.canceled_at {
            Some(time) => {
                let written = Utils::show_time(time);
                out.append(written.as_str());
            },
            None => out.append("no cancellation time provided"),
        }
        out.append("\nNitro type: ");
        out.append(Self::tier_name(self.nitro_type));
        out.append("\n\n");
        out
    }
}

impl Boost {
    /// The entry of the boost slot in the report, as number `index + 1` of
    /// `all_boosts`.
    pub open spec fn shown(&self, index: usize, all_boosts: usize) -> Seq<char> {
        "\nBoost #"@
            + decimal((index + 1) as nat)
            + " of "@
            + decimal(all_boosts as nat)
            + "\n\nIs used: "@
            + yes_or_no(self.premium_guild_subscription.is_some())
            + "\nSubscription ID: "@
            + self.subscription_id@
            + "\nGuild ID: "@
            + match self.premium_guild_subscription {
                Some(used) => used.guild_id@,
                None => "No guild (unused)"@,
            }
            + "\nCanceled: "@
            + yes_or_no(self.canceled)
            + "\nEnds: "@
            + shown_time(self.ends@)
            + "\n\n"@
    }

    /// Writes the entry of the boost slot in the report.
    pub fn show(&self, index: usize, all_boosts: usize) -> (shown: String)
        ensures
            shown@ == self.shown(index, all_boosts),
    {
        let mut out = String::new();
        out.append("\nBoost #");
        {
            let written = unsigned_to_string(index as u128 + 1);
            out.append(written.as_str());
        }
        out.append(" of ");
        {
            let written = unsigned_to_string(all_boosts as u128);
            out.append(written.as_str());
        }
        out.append("\n\nIs used: ");
        out.append(if self.premium_guild_subscription.is_some() {
            "Yes"
        } else {
            "No"
        });
        out.append("\nSubscription ID: ");
        out.append(self.subscription_id.as_str());
        out.append("\nGuild ID: ");
        match &self.premium_guild_subscription {
            Some(used) => out.append(used.guild_id.as_str()),
            None => out.append("No guild (unused)"),
        }
        out.append("\nCanceled: ");
        out.append(if self.canceled {
            "Yes"
        } else {
            "No"
        });
        out.append("\nEnds: ");
        {
            let written = Utils::show_time(&self.ends);
            out.append(written.as_str());
        }
        out.append("\n\n");
        out
    }
}

impl Promotion {
    /// The entry of the promotional code in the report, as number
    /// `index + 1` of `all_promotions`.
    pub open spec fn shown(&self, index: usize, all_promotions: usize) -> Seq<char> {
        "\nPromotion #"@
            + decimal((index + 1) as nat)
            + " of "@
            + decimal(all_promotions as nat)
            + "\n\nTitle: "@
            + self.outbound_title@
            + "\nStart date: "@
            + shown_time(self.start_time@)
            + "\nEnd date: "@
            + shown_time(self.end_date@)
            + "\nLink: "@
            + self.link@
            + "\nCode: "@
            + self.code@
            + "\n\n"@
    }

    /// Writes the entry of the promotional code in the report.
    pub fn show(&self, index: usize, all_promotions: usize) -> (shown: String)
        ensures
            shown@ == self.shown(index, all_promotions),
    {
        let mut out = String::new();
        out.append("\nPromotion #");
        {
            let written = unsigned_to_string(index as u128 + 1);
            out.append(written.as_str());
        }
        out.append(" of ");
        {
            let written = unsigned_to_string(all_promotions as u128);
            out.append(written.as_str());
        }
        out.append("\n\nTitle: ");
        out.append(self.outbound_title.as_str());
        out.append("\nStart date: ");
        {
            let written = Utils::show_time(&self.start_time);
            out.append(written.as_str());
        }
        out.append("\nEnd date: ");
        {
            let written = Utils::show_time(&self.end_date);
            out.append(written.as_str());
        }
        out.append("\nLink: ");
        out.append(self.link.as_str());
        out.append("\nCode: ");
        out.append(self.code.as_str());
        out.append("\n\n");
        out
    }
}

} // verus!
