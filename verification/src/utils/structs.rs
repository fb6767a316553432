//! The records the upstream service returns, and the merged record of one
//! credential.

use vstd::prelude::*;
use crate::utils::text::{decimal, unsigned_to_string};
pub use crate::utils::structs::connections::Connection;
pub use crate::utils::structs::guild::Guild;
pub use crate::utils::structs::nitro::{
    Boost, Gift, Nitro, PremiumGuildSubscription, Promotion, SubscriptionPlan,
};
pub use crate::utils::structs::relationship::{PublicUser, Relationship};
pub use crate::utils::structs::token_info::{TokenInfo, TokenInfoView};

pub mod connections;
pub mod guild;
pub mod nitro;
pub mod relationship;
pub mod token_info;

verus! {

/// The body the upstream sends along with a rejection.
#[derive(Debug, Clone, PartialEq, Eq)]
pub struct UnauthorizedResponse {
    pub code: i32,
    pub message: String,
}

/// The mathematical value of an [`UnauthorizedResponse`].
pub ghost struct UnauthorizedResponseView {
    pub code: i32,
    pub message: Seq<char>,
}

impl View for UnauthorizedResponse {
    type V = UnauthorizedResponseView;

    open spec fn view(&self) -> UnauthorizedResponseView {
        UnauthorizedResponseView { code: self.code, message: self.message@ }
    }
}

/// The merged record of one credential: the identity, and one slot for each
/// auxiliary call.
#[derive(Debug, PartialEq, Eq)]
pub struct TokenResult {
    pub main_info: TokenInfo,
    pub connections: Vec<Connection>,
    pub relationships: Vec<Relationship>,
    pub promotions: Vec<Promotion>,
    /// Whether any auxiliary call was told to back off.
    pub rate_limited: bool,
    pub guilds: Vec<Guild>,
    pub boosts: Vec<Boost>,
    pub nitro_info: Vec<Nitro>,
    /// Unconsumed credits: first of the classic tier, then of the boost
    /// tier.
    pub nitro_credits: (usize, usize),
    pub gifts: Vec<Gift>,
}

/// The mathematical value of a [`TokenResult`].
pub ghost struct TokenResultView {
    pub main_info: TokenInfoView,
    pub connections: Seq<Connection>,
    pub relationships: Seq<Relationship>,
    pub promotions: Seq<Promotion>,
    pub rate_limited: bool,
    pub guilds: Seq<Guild>,
    pub boosts: Seq<Boost>,
    pub nitro_info: Seq<Nitro>,
    pub nitro_credits: (usize, usize),
    pub gifts: Seq<Gift>,
}

impl View for TokenResult {
    type V = TokenResultView;

    open spec fn view(&self) -> TokenResultView {
        TokenResultView {
            main_info: self.main_info@,
            connections: self.connections@,
            relationships: self.relationships@,
            promotions: self.promotions@,
            rate_limited: self.rate_limited,
            guilds: self.guilds@,
            boosts: self.boosts@,
            nitro_info: self.nitro_info@,
            nitro_credits: self.nitro_credits,
            gifts: self.gifts@,
        }
    }
}

/// A record that has an entry of its own in a section of the report.
pub trait Entry {
    /// Whether the record holds what its entry shows.
    spec fn showable(&self) -> bool;

    /// The entry of the record, as number `index`, counted from zero, of
    /// `total`.
    spec fn entry_text(&self, index: usize, total: usize) -> Seq<char>;

    /// Writes the entry of the record.
    fn entry(&self, index: usize, total: usize) -> (shown: String)
        requires
            self.showable(),
        ensures
            shown@ == self.entry_text(index, total),
    ;
}

impl Entry for Connection {
    open spec fn showable(&self) -> bool {
        true
    }

    open spec fn entry_text(&self, index: usize, total: usize) -> Seq<char> {
        self.shown(index, total)
    }

    fn entry(&self, index: usize, total: usize) -> (shown: String) {
        self.show(index, total)
    }
}

impl Entry for Relationship {
    open spec fn showable(&self) -> bool {
        true
    }

    open spec fn entry_text(&self, index: usize, total: usize) -> Seq<char> {
        self.shown(index, total)
    }

    fn entry(&self, index: usize, total: usize) -> (shown: String) {
        self.show(index, total)
    }
}

impl Entry for Guild {
    open spec fn showable(&self) -> bool {
        true
    }

    open spec fn entry_text(&self, index: usize, total: usize) -> Seq<char> {
        self.shown(index, total)
    }

    fn entry(&self, index: usize, total: usize) -> (shown: String) {
        self.show(index, total)
    }
}

impl Entry for Boost {
    open spec fn showable(&self) -> bool {
        true
    }

    open spec fn entry_text(&self, index: usize, total: usize) -> Seq<char> {
        self.shown(index, total)
    }

    fn entry(&self, index: usize, total: usize) -> (shown: String) {
        self.show(index, total)
    }
}

impl Entry for Promotion {
    open spec fn showable(&self) -> bool {
        true
    }

    open spec fn entry_text(&self, index: usize, total: usize) -> Seq<char> {
        self.shown(index, total)
    }

    fn entry(&self, index: usize, total: usize) -> (shown: String) {
        self.show(index, total)
    }
}

impl Entry for Nitro {
    open spec fn showable(&self) -> bool {
        true
    }

    open spec fn entry_text(&self, index: usize, total: usize) -> Seq<char> {
        self.shown(index, total)
    }

    fn entry(&self, index: usize, total: usize) -> (shown: String) {
        self.show(index, total)
    }
}

impl Entry for Gift {
    open spec fn showable(&self) -> bool {
        self.subscription_plan is Some
    }

    open spec fn entry_text(&self, index: usize, total: usize) -> Seq<char> {
        self.shown(index, total)
    }

    fn entry(&self, index: usize, total: usize) -> (shown: String) {
        self.show(index, total)
    }
}

/// Whether every record of a list holds what its entry shows.
pub open spec fn all_showable<T: Entry>(items: Seq<T>) -> bool {
    forall|i: int| 0 <= i < items.len() ==> (#[trigger] items[i]).showable()
}

/// The entries of the first `upto` records of a list, one after the other,
/// each numbered against `total`.
pub open spec fn entries_text<T: Entry>(items: Seq<T>, total: usize, upto: int) -> Seq<char>
    decreases upto,
{
    if upto <= 0 {
        Seq::empty()
    } else {
        entries_text(items, total, upto - 1) + items[upto - 1].entry_text(
            (upto - 1) as usize,
            total,
        )
    }
}

/// A section of the report: the entries of its records, or, where it has
/// none, a line that says so and an empty line.
pub open spec fn section_text<T: Entry>(items: Seq<T>, total: usize, none: Seq<char>) -> Seq<
    char,
> {
    if items.len() == 0 {
        none + "\n\n"@
    } else {
        entries_text(items, total, items.len() as int)
    }
}

/// Whether the record at `at` is the first of a list that does not hold
/// what its entry shows.
pub open spec fn is_first_unshowable<T: Entry>(items: Seq<T>, at: int) -> bool {
    &&& 0 <= at < items.len()
    &&& !items[at].showable()
    &&& forall|j: int| 0 <= j < at ==> (#[trigger] items[j]).showable()
}

/// The line by which the report says that some call was told to back off,
/// so that an empty section may stand for records that were not fetched.
pub const RATE_LIMITED_NOTICE: &'static str =
    "Request was rate-limited: a section without entries may be incomplete\n";

/// What the report says of the rate limit: the notice where some call was
/// told to back off, and nothing where none was.
pub open spec fn rate_limit_text(rate_limited: bool) -> Seq<char> {
    if rate_limited {
        RATE_LIMITED_NOTICE@
    } else {
        Seq::empty()
    }
}

/// Writes the entries of the first `upto` records of a list at the end of
/// `out`.
pub fn show_entries<T: Entry>(out: &mut String, items: &Vec<T>, total: usize, upto: usize)
    requires
        upto <= items@.len(),
        forall|j: int| 0 <= j < upto ==> (#[trigger] items@[j]).showable(),
    ensures
        final(out)@ == old(out)@ + entries_text(items@, total, upto as int),
{
    let mut i: usize = 0;
    while i < upto
        invariant
            i <= upto <= items@.len(),
            forall|j: int| 0 <= j < upto ==> (#[trigger] items@[j]).showable(),
            out@ == old(out)@ + entries_text(items@, total, i as int),
        decreases upto - i,
    {
        let entry = items[i].entry(i, total);
        out.append(entry.as_str());
        i = i + 1;
    }
}

/// Writes a section of the report at the end of `out`.
pub fn show_section<T: Entry>(out: &mut String, items: &Vec<T>, total: usize, none: &str)
    requires
        all_showable(items@),
    ensures
        final(out)@ == old(out)@ + section_text(items@, total, none@),
{
    if items.len() == 0 {
        out.append(none);
        out.append("\n\n");
    } else {
        show_entries(out, items, total, items.len());
    }
}

impl TokenResult {
    /// Whether the record holds what the report shows of it: every gift
    /// names its plan.
    pub open spec fn showable(&self) -> bool {
        all_showable(self.gifts@)
    }

    /// The sections of the report that come before the gifts, each under
    /// its title, then the credits and the heading of the gifts.
    pub open spec fn sections_shown(&self) -> Seq<char> {
        "----------------------------- CONNECTIONS -----------------------------\n"@
            + section_text(
            self.connections@,
            self.connections@.len() as usize,
            "No connections available"@,
        ) + "----------------------------- RELATIONSHIPS -----------------------------\n"@
            + section_text(
            self.relationships@,
            self.relationships@.len() as usize,
            "No relationships available"@,
        ) + "----------------------------- GUILDS -----------------------------\n"@
            + section_text(self.guilds@, self.guilds@.len() as usize, "No guilds available"@)
            + "----------------------------- BOOSTS -----------------------------\n"@
            + section_text(self.boosts@, self.boosts@.len() as usize, "No boosts available"@)
            + "----------------------------- PROMOTIONS -------------------------\n"@
            + section_text(
            self.promotions@,
            self.connections@.len() as usize,
            "No promotions available"@,
        ) + "-------------------------- NITRO & GIFTS -------------------------\n"@
            + "NITRO INFO:\n\n"@ + section_text(
            self.nitro_info@,
            self.nitro_info@.len() as usize,
            "No basic Nitro info available"@,
        ) + "\nNitro credits:\n\nClassic: "@ + decimal(self.nitro_credits.0 as nat)
            + "\nBoost: "@ + decimal(self.nitro_credits.1 as nat) + "\n\n"@
            + "GIFTS INFO:\n\n"@
    }

    /// The report on the credential up to the gifts: the identity, the
    /// notice of a rate limit where there was one, and the sections that
    /// come before the gifts.
    pub open spec fn shown_before_gifts(&self, mask_token: bool) -> Seq<char> {
        self.main_info.shown(mask_token) + rate_limit_text(self.rate_limited)
            + self.sections_shown()
    }

    /// The report on the credential: all that comes before the gifts, then
    /// the section of the gifts.
    pub open spec fn shown(&self, mask_token: bool) -> Seq<char> {
        self.shown_before_gifts(mask_token) + section_text(
            self.gifts@,
            self.gifts@.len() as usize,
            "No gifts available"@,
        )
    }

    /// Tells whether the record holds what the report shows of it.
    pub fn can_show(&self) -> (ready: bool)
        ensures
            ready == self.showable(),
    {
        let mut i: usize = 0;
        while i < self.gifts.len()
            invariant
                i <= self.gifts@.len(),
                forall|j: int| 0 <= j < i ==> (#[trigger] self.gifts@[j]).showable(),
            decreases self.gifts@.len() - i,
        {
            if self.gifts[i].subscription_plan.is_none() {
                return false;
            }
            i = i + 1;
        }
        true
    }

    /// Writes the sections of the report that come before the gifts. The
    /// promotional codes are numbered against the count of linked
    /// accounts.
    pub fn show_sections(&self) -> (shown: String)
        ensures
            shown@ == self.sections_shown(),
    {
        let mut out = String::from_str(
            "----------------------------- CONNECTIONS -----------------------------\n",
        );
        show_section(
            &mut out,
            &self.connections,
            self.connections.len(),
            "No connections available",
        );
        out.append("----------------------------- RELATIONSHIPS -----------------------------\n");
        show_section(
            &mut out,
            &self.relationships,
            self.relationships.len(),
            "No relationships available",
        );
        out.append("----------------------------- GUILDS -----------------------------\n");
        show_section(&mut out, &self.guilds, self.guilds.len(), "No guilds available");
        out.append("----------------------------- BOOSTS -----------------------------\n");
        show_section(&mut out, &self.boosts, self.boosts.len(), "No boosts available");
        out.append("----------------------------- PROMOTIONS -------------------------\n");
        show_section(
            &mut out,
            &self.promotions,
            self.connections.len(),
            "No promotions available",
        );
        out.append("-------------------------- NITRO & GIFTS -------------------------\n");
        out.append("NITRO INFO:\n\n");
        show_section(
            &mut out,
            &self.nitro_info,
            self.nitro_info.len(),
            "No basic Nitro info available",
        );
        out.append("\nNitro credits:\n\nClassic: ");
        let classic = unsigned_to_string(self.nitro_credits.0 as u128);
        out.append(classic.as_str());
        out.append("\nBoost: ");
        let boost = unsigned_to_string(self.nitro_credits.1 as u128);
        out.append(boost.as_str());
        out.append("\n\n");
        out.append("GIFTS INFO:\n\n");
        out
    }

    /// Writes the report on the credential up to the gifts. Where some
    /// auxiliary call was told to back off, a line of its own says so,
    /// right behind the identity.
    pub fn show_before_gifts(&self, mask_token: bool) -> (shown: String)
        ensures
            shown@ == self.shown_before_gifts(mask_token),
    {
        let mut out = self.main_info.show(mask_token);
        if self.rate_limited {
            out.append(RATE_LIMITED_NOTICE);
        }
        let sections = self.show_sections();
        out.append(sections.as_str());
        out
    }

    /// Writes the report on the credential. Every gift must name its plan;
    /// [`TokenResult::show_partial`] asks for nothing.
    pub fn show(&self, mask_token: bool) -> (shown: String)
        requires
            self.showable(),
        ensures
            shown@ == self.shown(mask_token),
    {
        let mut out = self.show_before_gifts(mask_token);
        show_section(&mut out, &self.gifts, self.gifts.len(), "No gifts available");
        out
    }

    /// Writes the report on the credential as far as it can be written,
    /// and tells whether that is all of it. The report breaks off before
    /// the entry of the first gift that names no plan.
    pub fn show_partial(&self, mask_token: bool) -> (shown: (String, bool))
        ensures
            shown.1 == self.showable(),
            shown.1 ==> shown.0@ == self.shown(mask_token),
            forall|at: int|
                is_first_unshowable(self.gifts@, at) ==> shown.0@ == self.shown_before_gifts(
                    mask_token,
                ) + entries_text(self.gifts@, self.gifts@.len() as usize, at),
    {
        let mut out = self.show_before_gifts(mask_token);
        let mut at: usize = 0;
        while at < self.gifts.len() && self.gifts[at].subscription_plan.is_some()
            invariant
                at <= self.gifts@.len(),
                forall|j: int| 0 <= j < at ==> (#[trigger] self.gifts@[j]).showable(),
            decreases self.gifts@.len() - at,
        {
            at = at + 1;
        }
        if at == self.gifts.len() {
            show_section(&mut out, &self.gifts, self.gifts.len(), "No gifts available");
            (out, true)
        } else {
            show_entries(&mut out, &self.gifts, self.gifts.len(), at);
            (out, false)
        }
    }
}

/// The report on a record that some call has rate-limited says so
/// outright: between the identity and the sections stands the notice, which
/// is a line of text and not the empty one. In the report on a record that
/// no call has rate-limited nothing stands between them.
pub proof fn lemma_rate_limit_is_reported(record: TokenResult, mask_token: bool)
    ensures
        RATE_LIMITED_NOTICE@.len() > 0,
        record.rate_limited ==> record.shown_before_gifts(mask_token) == record.main_info.shown(
            mask_token,
        ) + RATE_LIMITED_NOTICE@ + record.sections_shown(),
        !record.rate_limited ==> record.shown_before_gifts(mask_token)
            == record.main_info.shown(mask_token) + record.sections_shown(),
{
    reveal_strlit("Request was rate-limited: a section without entries may be incomplete\n");
}

} // verus!
