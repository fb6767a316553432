//! One attempt at checking a credential: the identity call that gates it,
//! and the fold of the auxiliary calls into one record.

use vstd::prelude::*;
use reqwest::header::HeaderValue;
use crate::api::{endpoint_url, identity_of, translated, Endpoint, Reply, API};
use crate::utils::enums::{ApiError, ApiErrorView};
use crate::utils::structs::{
    Boost, Connection, Gift, Guild, Nitro, Promotion, Relationship, TokenInfo, TokenInfoView,
    TokenResult, TokenResultView,
};
use crate::utils::{is_rate_limited, Utils};

verus! {

/// Whether `c` may stand in the value of a header: a tab, or any character
/// from the space on but the delete character.
pub open spec fn is_header_char(c: char) -> bool {
    c == '\t' || (c as u32 >= 32 && c as u32 != 127)
}

/// Whether `text` can be sent as the value of a header.
pub open spec fn is_header_text(text: Seq<char>) -> bool {
    forall|i: int| 0 <= i < text.len() ==> is_header_char(#[trigger] text[i])
}

/// `HeaderValue::from_str` of reqwest, asked only whether it accepts the
/// text: it does where every byte of the text is a tab or at least 32, and
/// none is 127. A character beyond ASCII is sent as bytes above 127, so
/// only the characters below 128 decide.
#[verifier::external_body]
pub(crate) fn header_value_accepts(text: &str) -> (accepted: bool)
    ensures
        accepted == is_header_text(text@),
{
    HeaderValue::from_str(text).is_ok()
}

/// The outcomes of the auxiliary calls of one attempt, one for each call.
#[derive(Debug, PartialEq, Eq)]
pub struct FanOut {
    pub connections: Result<Vec<Connection>, ApiError>,
    pub promotions: Result<Vec<Promotion>, ApiError>,
    pub relationships: Result<Vec<Relationship>, ApiError>,
    pub guilds: Result<Vec<Guild>, ApiError>,
    pub boosts: Result<Vec<Boost>, ApiError>,
    pub nitro_info: Result<Vec<Nitro>, ApiError>,
    pub nitro_credits: Result<(usize, usize), ApiError>,
    pub gifts: Result<Vec<Gift>, ApiError>,
}

/// What a call for a list contributes to its slot: the list where the call
/// succeeded, the empty list otherwise.
pub open spec fn list_slot<T>(outcome: Result<Vec<T>, ApiError>) -> Seq<T> {
    match outcome {
        Ok(list) => list@,
        Err(_) => Seq::empty(),
    }
}

/// What the call for the credits contributes to its slot: the counts where
/// the call succeeded, two zeros otherwise.
pub open spec fn credit_slot(outcome: Result<(usize, usize), ApiError>) -> (usize, usize) {
    match outcome {
        Ok(credits) => credits,
        Err(_) => (0, 0),
    }
}

impl FanOut {
    /// Whether at least one of the calls was told to back off.
    pub open spec fn any_rate_limited(self) -> bool {
        ||| is_rate_limited(self.connections)
        ||| is_rate_limited(self.promotions)
        ||| is_rate_limited(self.relationships)
        ||| is_rate_limited(self.guilds)
        ||| is_rate_limited(self.boosts)
        ||| is_rate_limited(self.nitro_info)
        ||| is_rate_limited(self.nitro_credits)
        ||| is_rate_limited(self.gifts)
    }

    /// Whether the call to `endpoint` was told to back off. The identity
    /// call is none of these calls.
    pub open spec fn rate_limited_at(self, endpoint: Endpoint) -> bool {
        match endpoint {
            Endpoint::Me => false,
            Endpoint::Connections => is_rate_limited(self.connections),
            Endpoint::Promotions => is_rate_limited(self.promotions),
            Endpoint::Relationships => is_rate_limited(self.relationships),
            Endpoint::Guilds => is_rate_limited(self.guilds),
            Endpoint::Boosts => is_rate_limited(self.boosts),
            Endpoint::NitroInfo => is_rate_limited(self.nitro_info),
            Endpoint::NitroCredits => is_rate_limited(self.nitro_credits),
            Endpoint::Gifts => is_rate_limited(self.gifts),
        }
    }
}

/// The merged record of the identity `info` and the outcomes `fan_out`.
pub open spec fn aggregated(info: TokenInfoView, fan_out: FanOut) -> TokenResultView {
    TokenResultView {
        main_info: info,
        connections: list_slot(fan_out.connections),
        relationships: list_slot(fan_out.relationships),
        promotions: list_slot(fan_out.promotions),
        rate_limited: fan_out.any_rate_limited(),
        guilds: list_slot(fan_out.guilds),
        boosts: list_slot(fan_out.boosts),
        nitro_info: list_slot(fan_out.nitro_info),
        nitro_credits: credit_slot(fan_out.nitro_credits),
        gifts: list_slot(fan_out.gifts),
    }
}

/// Whether the slot that `endpoint` fills holds, in `record`, what the call
/// contributed: its payload, or the default where it failed. For the
/// identity call the slot is the identity itself.
pub open spec fn slot_holds(
    record: TokenResultView,
    info: TokenInfoView,
    fan_out: FanOut,
    endpoint: Endpoint,
) -> bool {
    match endpoint {
        Endpoint::Me => record.main_info == info,
        Endpoint::Connections => record.connections == list_slot(fan_out.connections),
        Endpoint::Promotions => record.promotions == list_slot(fan_out.promotions),
        Endpoint::Relationships => record.relationships == list_slot(fan_out.relationships),
        Endpoint::Guilds => record.guilds == list_slot(fan_out.guilds),
        Endpoint::Boosts => record.boosts == list_slot(fan_out.boosts),
        Endpoint::NitroInfo => record.nitro_info == list_slot(fan_out.nitro_info),
        Endpoint::NitroCredits => record.nitro_credits == credit_slot(fan_out.nitro_credits),
        Endpoint::Gifts => record.gifts == list_slot(fan_out.gifts),
    }
}

/// The auxiliary calls, in the order in which their slots are folded.
pub open spec fn auxiliary_endpoints() -> Seq<Endpoint> {
    seq![
        Endpoint::Connections,
        Endpoint::Promotions,
        Endpoint::Relationships,
        Endpoint::Guilds,
        Endpoint::Boosts,
        Endpoint::NitroInfo,
        Endpoint::NitroCredits,
        Endpoint::Gifts,
    ]
}

/// The locale in which an auxiliary call is made for the identity `info`:
/// the promotions are asked for in the locale of the identity, and no other
/// call takes one.
pub open spec fn auxiliary_locale(endpoint: Endpoint, info: TokenInfoView) -> Option<Seq<char>> {
    if endpoint is Promotions {
        Some(info.locale)
    } else {
        None
    }
}

/// What the identity call decided for the rest of an attempt.
#[derive(Debug, PartialEq, Eq)]
pub enum CheckStep {
    /// The identity is known: the auxiliary calls are to be made.
    FanOut(TokenInfo),
    /// The identity call failed: the attempt ends here, with its failure.
    Failed(ApiError),
}

/// What the upstream brings back in one attempt. The outcomes of the
/// auxiliary calls are looked at only where the identity call succeeds.
#[derive(Debug, PartialEq, Eq)]
pub struct Attempt {
    pub identity: Reply<TokenInfo>,
    pub fan_out: FanOut,
}

/// The mathematical value of the outcome of an attempt.
pub open spec fn check_view(outcome: Result<TokenResult, ApiError>) -> Result<
    TokenResultView,
    ApiErrorView,
> {
    match outcome {
        Ok(record) => Ok(record@),
        Err(error) => Err(error@),
    }
}

/// The outcome of an attempt for the credential `token`: the failure of
/// the identity call, or the merged record.
pub open spec fn checked(token: Seq<char>, attempt: Attempt) -> Result<
    TokenResultView,
    ApiErrorView,
> {
    match translated(attempt.identity) {
        Ok(sent) => Ok(aggregated(identity_of(sent@, token), attempt.fan_out)),
        Err(error) => Err(error),
    }
}

/// The checker of one credential.
pub struct Checker {
    token: String,
}

impl Checker {
    /// The credential that is checked.
    pub closed spec fn token_text(&self) -> Seq<char> {
        self.token@
    }

    /// Tells whether a credential can be presented to the upstream at all:
    /// whether it can be sent as the value of a header.
    pub fn accepts(token: &str) -> (accepted: bool)
        ensures
            accepted == is_header_text(token@),
    {
        header_value_accepts(token)
    }

    /// Makes the checker of the credential `token`, which must be one that
    /// can be sent as the value of a header.
    pub fn new(token: &str) -> (checker: Checker)
        requires
            is_header_text(token@),
        ensures
            checker.token_text() == token@,
    {
        Checker { token: token.to_owned() }
    }

    /// Returns the credential that is checked.
    pub fn token(&self) -> (token: &str)
        ensures
            token@ == self.token_text(),
    {
        self.token.as_str()
    }

    /// Makes the gateway of the credential.
    pub fn api(&self) -> (api: API)
        ensures
            api.token_text() == self.token_text(),
    {
        API::new(self.token.clone())
    }

    /// Lists the auxiliary calls of an attempt, to be made side by side.
    pub fn auxiliary_calls() -> (calls: Vec<Endpoint>)
        ensures
            calls@ == auxiliary_endpoints(),
    {
        let mut calls: Vec<Endpoint> = Vec::new();
        calls.push(Endpoint::Connections);
        calls.push(Endpoint::Promotions);
        calls.push(Endpoint::Relationships);
        calls.push(Endpoint::Guilds);
        calls.push(Endpoint::Boosts);
        calls.push(Endpoint::NitroInfo);
        calls.push(Endpoint::NitroCredits);
        calls.push(Endpoint::Gifts);
        calls
    }

    /// Builds the addresses of the auxiliary calls of an attempt, in the
    /// order of the calls. The promotions are asked for in the locale of
    /// the identity.
    pub fn auxiliary_urls(info: &TokenInfo) -> (urls: Vec<String>)
        ensures
            urls@.len() == auxiliary_endpoints().len(),
            forall|i: int|
                0 <= i < urls@.len() ==> (#[trigger] urls@[i])@ == endpoint_url(
                    auxiliary_endpoints()[i],
                    auxiliary_locale(auxiliary_endpoints()[i], info@),
                ),
    {
        let calls = Self::auxiliary_calls();
        let mut urls: Vec<String> = Vec::new();
        let mut i: usize = 0;
        while i < calls.len()
            invariant
                i <= calls@.len(),
                calls@ == auxiliary_endpoints(),
                urls@.len() == i,
                forall|j: int|
                    0 <= j < i ==> (#[trigger] urls@[j])@ == endpoint_url(
                        auxiliary_endpoints()[j],
                        auxiliary_locale(auxiliary_endpoints()[j], info@),
                    ),
            decreases calls@.len() - i,
        {
            let locale = match calls[i] {
                Endpoint::Promotions => Some(info.locale.as_str()),
                _ => None,
            };
            urls.push(API::url(calls[i], locale));
            i = i + 1;
        }
        urls
    }

    /// Folds the outcomes of the auxiliary calls into the record of the
    /// credential. Each call fills its own slot: with its payload where it
    /// succeeded, with the empty value where it failed. The record is
    /// marked where any call was told to back off. The fold never fails.
    pub fn process_token(&self, token_info: TokenInfo, outcomes: FanOut) -> (outcome: Result<
        TokenResult,
        ApiError,
    >)
        ensures
            outcome matches Ok(record) && record@ == aggregated(token_info@, outcomes),
    {
        let mut rate_limited = false;
        let FanOut {
            connections,
            promotions,
            relationships,
            guilds,
            boosts,
            nitro_info,
            nitro_credits,
            gifts,
        } = outcomes;
        let connections = Utils::process_result(connections, &mut rate_limited, Vec::new());
        let promotions = Utils::process_result(promotions, &mut rate_limited, Vec::new());
        let relationships = Utils::process_result(relationships, &mut rate_limited, Vec::new());
        let guilds = Utils::process_result(guilds, &mut rate_limited, Vec::new());
        let boosts = Utils::process_result(boosts, &mut rate_limited, Vec::new());
        let nitro_info = Utils::process_result(nitro_info, &mut rate_limited, Vec::new());
        let nitro_credits = Utils::process_result(nitro_credits, &mut rate_limited, (0, 0));
        let gifts = Utils::process_result(gifts, &mut rate_limited, Vec::new());
        Ok(
            TokenResult {
                main_info: token_info,
                connections,
                relationships,
                promotions,
                rate_limited,
                guilds,
                boosts,
                nitro_info,
                nitro_credits,
                gifts,
            },
        )
    }

    /// Concludes the identity call of an attempt and decides how the
    /// attempt goes on: with the auxiliary calls where the identity is
    /// known, and not at all where it is not.
    pub fn check(&self, identity: Reply<TokenInfo>) -> (step: CheckStep)
        ensures
            match translated(identity) {
                Ok(sent) => step matches CheckStep::FanOut(info) && info@ == identity_of(
                    sent@,
                    self.token_text(),
                ),
                Err(error) => step matches CheckStep::Failed(e) && e@ == error,
            },
    {
        let api = self.api();
        match api.get_me(identity) {
            Ok(info) => CheckStep::FanOut(info),
            Err(error) => CheckStep::Failed(error),
        }
    }

    /// Runs one whole attempt on what the upstream brings back in it.
    pub fn attempt(&self, script: Attempt) -> (outcome: Result<TokenResult, ApiError>)
        ensures
            check_view(outcome) == checked(self.token_text(), script),
    {
        let Attempt { identity, fan_out } = script;
        match self.check(identity) {
            CheckStep::FanOut(info) => self.process_token(info, fan_out),
            CheckStep::Failed(error) => Err(error),
        }
    }
}

/// Every call of an attempt has its slot in the merged record, and the slot
/// holds what the call contributed: the fold leaves none out and none
/// empty-handed. There are eight auxiliary calls, and so eight slots beside
/// the identity.
pub proof fn lemma_every_slot_filled(info: TokenInfoView, fan_out: FanOut)
    ensures
        auxiliary_endpoints().len() == 8,
        auxiliary_endpoints().no_duplicates(),
        forall|endpoint: Endpoint|
            endpoint.is_auxiliary() <==> auxiliary_endpoints().contains(endpoint),
        forall|endpoint: Endpoint| #[trigger]
            slot_holds(aggregated(info, fan_out), info, fan_out, endpoint),
{
    let calls = auxiliary_endpoints();
    assert forall|endpoint: Endpoint| endpoint.is_auxiliary() implies calls.contains(
        endpoint,
    ) by {
        match endpoint {
            Endpoint::Me => {},
            Endpoint::Connections => assert(calls[0] == endpoint),
            Endpoint::Promotions => assert(calls[1] == endpoint),
            Endpoint::Relationships => assert(calls[2] == endpoint),
            Endpoint::Guilds => assert(calls[3] == endpoint),
            Endpoint::Boosts => assert(calls[4] == endpoint),
            Endpoint::NitroInfo => assert(calls[5] == endpoint),
            Endpoint::NitroCredits => assert(calls[6] == endpoint),
            Endpoint::Gifts => assert(calls[7] == endpoint),
        }
    }
}

/// The merged record is marked as rate-limited exactly where some
/// auxiliary call was told to back off, and whatever happened to one call
/// leaves the slot of every other call as that call alone made it: a call
/// that succeeded has its payload in its slot.
pub proof fn lemma_rate_limit_is_flagged(info: TokenInfoView, fan_out: FanOut)
    ensures
        aggregated(info, fan_out).rate_limited <==> exists|endpoint: Endpoint|
            fan_out.rate_limited_at(endpoint),
        fan_out.connections matches Ok(list) ==> aggregated(info, fan_out).connections == list@,
        fan_out.promotions matches Ok(list) ==> aggregated(info, fan_out).promotions == list@,
        fan_out.relationships matches Ok(list) ==> aggregated(info, fan_out).relationships
            == list@,
        fan_out.guilds matches Ok(list) ==> aggregated(info, fan_out).guilds == list@,
        fan_out.boosts matches Ok(list) ==> aggregated(info, fan_out).boosts == list@,
        fan_out.nitro_info matches Ok(list) ==> aggregated(info, fan_out).nitro_info == list@,
        fan_out.nitro_credits matches Ok(credits) ==> aggregated(info, fan_out).nitro_credits
            == credits,
        fan_out.gifts matches Ok(list) ==> aggregated(info, fan_out).gifts == list@,
{
    if fan_out.any_rate_limited() {
        if is_rate_limited(fan_out.connections) {
            assert(fan_out.rate_limited_at(Endpoint::Connections));
        } else if is_rate_limited(fan_out.promotions) {
            assert(fan_out.rate_limited_at(Endpoint::Promotions));
        } else if is_rate_limited(fan_out.relationships) {
            assert(fan_out.rate_limited_at(Endpoint::Relationships));
        } else if is_rate_limited(fan_out.guilds) {
            assert(fan_out.rate_limited_at(Endpoint::Guilds));
        } else if is_rate_limited(fan_out.boosts) {
            assert(fan_out.rate_limited_at(Endpoint::Boosts));
        } else if is_rate_limited(fan_out.nitro_info) {
            assert(fan_out.rate_limited_at(Endpoint::NitroInfo));
        } else if is_rate_limited(fan_out.nitro_credits) {
            assert(fan_out.rate_limited_at(Endpoint::NitroCredits));
        } else {
            assert(fan_out.rate_limited_at(Endpoint::Gifts));
        }
    }
}

} // verus!
