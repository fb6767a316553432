//! Helpers shared by the gateway, the aggregator and the report.

use vstd::prelude::*;
pub use vstd::hash_map::StringHashMap;
use vstd::utf8::encode_utf8;
use std::num::ParseIntError;
use std::time::Duration;
use crate::utils::constants::{
    friend_type, friend_type_key, friend_type_label, user_flag, user_flag_key, user_flag_label,
    user_permission, user_permission_key, user_permission_label, BOOST_CREDIT_PLAN,
    CLASSIC_CREDIT_PLAN, DISCORD_CDN_BASE, FRIEND_TYPE_LEN, UNKNOWN_FRIEND_TYPE, USER_FLAGS_LEN,
    USER_PERMISSIONS_LEN,
};
use crate::utils::enums::{ApiError, BannerType, CdnType, ImageType, StrOrInt};
use crate::utils::lines::{collect_filled_lines, filled_lines, trim_bounds, trimmed};
use crate::utils::structs::Gift;
use crate::utils::parse::{
    duration_from_secs, duration_of_secs, parse_i128, parse_u64, written_integer,
    written_natural,
};
use crate::utils::text::{append_repeated, chars_of, opt_text, repeated, string_of, texts};
use crate::utils::time::{
    creation_second, creation_secs, format_instant, formatted_instant, layout_or_default,
    parse_instant, time_text, DEFAULT_TIME_FORMAT,
};

pub mod constants;
pub mod enums;
pub mod lines;
pub mod parse;
pub mod status;
pub mod structs;
pub mod text;
pub mod time;

verus! {

/// The namespace of the helper functions.
pub struct Utils;

/// The address of an asset: root, kind of asset, owner, hash and extension.
pub open spec fn asset_url(
    cdn_type: CdnType,
    type_id: Seq<char>,
    hash: Seq<char>,
    image_type: ImageType,
) -> Seq<char> {
    DISCORD_CDN_BASE@ + "/"@ + cdn_type.spec_str() + "/"@ + type_id + "/"@ + hash + "."@
        + image_type.spec_str()
}

/// Whether a hash marks an animated image: it begins with the marker `a_`.
/// The same rule holds of avatars, icons and banners.
pub open spec fn is_animated(hash: Seq<char>) -> bool {
    hash.len() >= 2 && hash[0] == 'a' && hash[1] == '_'
}

/// The extension an asset is requested with.
pub open spec fn extension_for(animated: bool) -> ImageType {
    if animated {
        ImageType::Gif
    } else {
        ImageType::Png
    }
}

/// Whether `dot` is the place of the last dot of `text`.
pub open spec fn is_last_dot(text: Seq<char>, dot: int) -> bool {
    &&& 0 <= dot < text.len()
    &&& text[dot] == '.'
    &&& forall|j: int| dot < j < text.len() ==> text[j] != '.'
}

/// The place of the last dot of `text`, or -1 where it has none.
pub open spec fn last_dot(text: Seq<char>) -> int
    decreases text.len(),
{
    if text.len() == 0 {
        -1
    } else if text.last() == '.' {
        text.len() - 1
    } else {
        last_dot(text.drop_last())
    }
}

/// A credential as it is shown where its secret part is to be hidden: the
/// last dot-delimited segment gives way to asterisks. A credential without
/// a dot is shown as it is.
pub open spec fn masked(text: Seq<char>) -> Seq<char> {
    if last_dot(text) < 0 {
        text
    } else {
        masked_after(text, last_dot(text))
    }
}

/// `last_dot` finds the last dot, and tells where there is none.
pub proof fn lemma_last_dot(text: Seq<char>)
    ensures
        -1 <= last_dot(text) < text.len(),
        last_dot(text) >= 0 ==> is_last_dot(text, last_dot(text)),
        last_dot(text) < 0 ==> !text.contains('.'),
        forall|dot: int| is_last_dot(text, dot) ==> last_dot(text) == dot,
    decreases text.len(),
{
    if text.len() > 0 && text.last() != '.' {
        let front = text.drop_last();
        lemma_last_dot(front);
        assert forall|dot: int| is_last_dot(text, dot) implies last_dot(text) == dot by {
            assert(is_last_dot(front, dot));
        }
        if last_dot(front) >= 0 {
            let d = last_dot(front);
            assert forall|j: int| d < j < text.len() implies text[j] != '.' by {
                if j < front.len() {
                    assert(front[j] == text[j]);
                }
            }
        }
        if last_dot(front) < 0 {
            assert forall|i: int| 0 <= i < text.len() implies text[i] != '.' by {
                if i < front.len() {
                    assert(front.contains(front[i]));
                }
            }
        }
    }
}

/// `text` with what follows the dot at `dot` replaced by asterisks, one for
/// each byte that the replaced part takes in UTF-8.
pub open spec fn masked_after(text: Seq<char>, dot: int) -> Seq<char> {
    text.subrange(0, dot + 1) + repeated(
        '*',
        encode_utf8(text.subrange(dot + 1, text.len() as int)).len(),
    )
}

/// What the machine holds under the name that was given as input.
#[derive(Debug, Clone, PartialEq, Eq)]
pub enum TokenFile {
    /// There is no file of that name.
    Absent,
    /// The input names a file, and this is its text.
    Content(String),
    /// The input names a file that could not be read, and this is why.
    Unreadable(String),
}

/// Whether `input` can only be the name of a file: it holds a slash or a
/// backslash, which separate the parts of a path and stand in no
/// credential.
pub open spec fn names_a_path(input: Seq<char>) -> bool {
    input.contains('/') || input.contains('\\')
}

/// The credentials that an input stands for, or why it stands for none.
pub open spec fn tokens_of_input(input: Seq<char>, file: TokenFile) -> Result<
    Seq<Seq<char>>,
    Seq<char>,
> {
    match file {
        TokenFile::Unreadable(why) => Err("Failed reading file '"@ + input + "': "@ + why@),
        TokenFile::Content(content) => if filled_lines(content@).len() == 0 {
            Err("Token file is empty: "@ + input)
        } else {
            Ok(filled_lines(content@))
        },
        TokenFile::Absent => if names_a_path(input) {
            Err("Token file not found: "@ + input)
        } else if trimmed(input).len() == 0 {
            Err("Provided token string is empty."@)
        } else {
            Ok(seq![trimmed(input)])
        },
    }
}

/// The mathematical value of the outcome of resolving an input.
pub open spec fn tokens_view(outcome: Result<Vec<String>, String>) -> Result<
    Seq<Seq<char>>,
    Seq<char>,
> {
    match outcome {
        Ok(tokens) => Ok(texts(tokens@)),
        Err(why) => Err(why@),
    }
}

/// An instant as the report shows it: in the report's own layout where the
/// text writes an instant and the layout can be applied to it, and the text
/// as it is otherwise.
pub open spec fn shown_time(text: Seq<char>) -> Seq<char> {
    match time_text(text, DEFAULT_TIME_FORMAT@) {
        Some(shown) => shown,
        None => text,
    }
}

/// The name of the relationship kind `kind` among the first `upto` entries
/// of the table, or the name for an unknown kind where none of them has
/// it.
pub open spec fn friend_type_name(kind: i32, upto: int) -> Seq<char>
    decreases upto,
{
    if upto <= 0 {
        UNKNOWN_FRIEND_TYPE@
    } else if friend_type_key(upto - 1) == kind && !has_friend_type(kind, upto - 1) {
        friend_type_label(upto - 1)
    } else {
        friend_type_name(kind, upto - 1)
    }
}

/// Whether one of the first `upto` entries of the table is for the
/// relationship kind `kind`.
pub open spec fn has_friend_type(kind: i32, upto: int) -> bool {
    exists|i: int| 0 <= i < upto && friend_type_key(i) == kind
}

/// The first entry for a kind decides its name, whatever follows it.
proof fn lemma_friend_type_found(kind: i32, first: int, upto: int)
    requires
        0 <= first < upto,
        friend_type_key(first) == kind,
        !has_friend_type(kind, first),
    ensures
        friend_type_name(kind, upto) == friend_type_label(first),
    decreases upto,
{
    if upto - 1 > first {
        lemma_friend_type_found(kind, first, upto - 1);
    }
}

/// A kind that no entry is for is unknown.
proof fn lemma_friend_type_missing(kind: i32, upto: int)
    requires
        !has_friend_type(kind, upto),
    ensures
        friend_type_name(kind, upto) == UNKNOWN_FRIEND_TYPE@,
    decreases upto,
{
    if upto > 0 {
        assert(!has_friend_type(kind, upto - 1)) by {
            if has_friend_type(kind, upto - 1) {
                let i = choose|i: int| 0 <= i < upto - 1 && friend_type_key(i) == kind;
            }
        }
        if friend_type_key(upto - 1) == kind {
        }
        lemma_friend_type_missing(kind, upto - 1);
    }
}

/// Whether `value` has every bit of `mask`.
pub open spec fn has_bits(value: i128, mask: i128) -> bool {
    (value & mask) == mask
}

/// The names of the public flags that `public_flags` carries, among the
/// first `upto` entries of the table and in its order. The entry with the
/// empty mask names no flag.
pub open spec fn flag_names(public_flags: i128, upto: int) -> Seq<Seq<char>>
    decreases upto,
{
    if upto <= 0 {
        Seq::empty()
    } else {
        let earlier = flag_names(public_flags, upto - 1);
        let key = user_flag_key(upto - 1);
        if has_bits(public_flags, key) && key != 0 {
            earlier.push(user_flag_label(upto - 1))
        } else {
            earlier
        }
    }
}

/// The names of the permissions that `permissions` grants, among the first
/// `upto` entries of the table and in its order.
pub open spec fn permission_names(permissions: i128, upto: int) -> Seq<Seq<char>>
    decreases upto,
{
    if upto <= 0 {
        Seq::empty()
    } else {
        let earlier = permission_names(permissions, upto - 1);
        if has_bits(permissions, user_permission_key(upto - 1)) {
            earlier.push(user_permission_label(upto - 1))
        } else {
            earlier
        }
    }
}

/// The permission bits that `text` writes: the integer where it writes one
/// that fits in 128 bits, and none otherwise.
pub open spec fn permission_bits(text: Seq<char>) -> i128 {
    match written_integer(text) {
        Some(v) => if i128::MIN <= v <= i128::MAX {
            v as i128
        } else {
            0
        },
        None => 0,
    }
}

/// The text found under `key`: the entry where there is one and it is text,
/// else the default, else the empty text.
pub open spec fn string_value(
    dict: Map<Seq<char>, StrOrInt>,
    key: Seq<char>,
    default_value: Option<Seq<char>>,
) -> Seq<char> {
    if dict.contains_key(key) && dict[key] is StrV {
        dict[key]->StrV_0@
    } else {
        match default_value {
            Some(text) => text,
            None => Seq::empty(),
        }
    }
}

/// What one auxiliary call contributes to its slot: its payload where it
/// succeeded, the slot's default otherwise.
pub open spec fn slot_value<T>(result: Result<T, ApiError>, default: T) -> T {
    match result {
        Ok(payload) => payload,
        Err(_) => default,
    }
}

/// Whether an entitlement gives the plan called `plan`.
pub open spec fn gives_plan(entitlement: Gift, plan: Seq<char>) -> bool {
    entitlement.subscription_plan is Some && entitlement.subscription_plan->0.name@ == plan
}

/// The number of entitlements that give the plan called `plan`.
pub open spec fn plan_count(entitlements: Seq<Gift>, plan: Seq<char>) -> nat
    decreases entitlements.len(),
{
    if entitlements.len() == 0 {
        0
    } else {
        plan_count(entitlements.drop_last(), plan) + if gives_plan(entitlements.last(), plan) {
            1nat
        } else {
            0nat
        }
    }
}

/// The count never exceeds the number of entitlements.
pub proof fn lemma_plan_count_bound(entitlements: Seq<Gift>, plan: Seq<char>)
    ensures
        plan_count(entitlements, plan) <= entitlements.len(),
    decreases entitlements.len(),
{
    if entitlements.len() > 0 {
        lemma_plan_count_bound(entitlements.drop_last(), plan);
    }
}

/// Whether a call was told to back off.
pub open spec fn is_rate_limited<T>(result: Result<T, ApiError>) -> bool {
    result matches Err(ApiError::RateLimited(_))
}

impl Utils {
    /// Tells whether the characters of an input can only be the name of a
    /// file.
    pub fn is_path(input: &Vec<char>) -> (path: bool)
        ensures
            path == names_a_path(input@),
    {
        let mut i: usize = 0;
        while i < input.len()
            invariant
                i <= input@.len(),
                forall|j: int| 0 <= j < i ==> input@[j] != '/' && input@[j] != '\\',
            decreases input@.len() - i,
        {
            if input[i] == '/' || input[i] == '\\' {
                return true;
            }
            i = i + 1;
        }
        false
    }

    /// Resolves the input of a run into credentials. Where the input names
    /// a file, every line of it that is more than white space is one
    /// credential, trimmed; a file without such a line, or one that could
    /// not be read, is an error. Where there is no file of that name, an
    /// input that can only be the name of a file is an error too: the file
    /// is missing. Any other input is itself the one credential, trimmed,
    /// and an error where nothing is left of it.
    pub fn read_tokens_from_input(input: &str, file: TokenFile) -> (outcome: Result<
        Vec<String>,
        String,
    >)
        ensures
            tokens_view(outcome) == tokens_of_input(input@, file),
    {
        match file {
            TokenFile::Unreadable(why) => {
                let mut message = String::from_str("Failed reading file '");
                message.append(input);
                message.append("': ");
                message.append(why.as_str());
                Err(message)
            },
            TokenFile::Content(content) => {
                let chars = chars_of(content.as_str());
                let tokens = collect_filled_lines(&chars);
                if tokens.len() == 0 {
                    let mut message = String::from_str("Token file is empty: ");
                    message.append(input);
                    Err(message)
                } else {
                    Ok(tokens)
                }
            },
            TokenFile::Absent => {
                let chars = chars_of(input);
                let bounds = trim_bounds(&chars, 0, chars.len());
                assert(chars@.subrange(0, chars@.len() as int) =~= input@);
                if Self::is_path(&chars) {
                    let mut message = String::from_str("Token file not found: ");
                    message.append(input);
                    Err(message)
                } else if bounds.0 == bounds.1 {
                    Err(String::from_str("Provided token string is empty."))
                } else {
                    let mut tokens: Vec<String> = Vec::new();
                    tokens.push(string_of(&chars, bounds.0, bounds.1));
                    assert(texts(tokens@) =~= seq![trimmed(input@)]);
                    Ok(tokens)
                }
            },
        }
    }

    /// Shows, in `format` or in the report's own layout, the second in which
    /// the identifier `snowflake_id` was issued. The layout must be one that
    /// can be applied; [`Utils::try_get_account_creation`] asks for nothing.
    pub fn get_account_creation(snowflake_id: i64, format: Option<&str>) -> (shown: String)
        requires
            formatted_instant(
                creation_secs(snowflake_id) as i64,
                0,
                layout_or_default(format),
            ) is Some,
        ensures
            Some(shown@) == formatted_instant(
                creation_secs(snowflake_id) as i64,
                0,
                layout_or_default(format),
            ),
    {
        let layout = match format {
            Some(layout) => layout,
            None => DEFAULT_TIME_FORMAT,
        };
        format_instant(creation_second(snowflake_id), 0, layout).unwrap()
    }

    /// Shows the second in which the identifier `snowflake_id` was issued,
    /// or nothing where the layout cannot be applied.
    pub fn try_get_account_creation(snowflake_id: i64, format: Option<&str>) -> (shown: Option<
        String,
    >)
        ensures
            opt_text(shown) == formatted_instant(
                creation_secs(snowflake_id) as i64,
                0,
                layout_or_default(format),
            ),
    {
        let layout = match format {
            Some(layout) => layout,
            None => DEFAULT_TIME_FORMAT,
        };
        match format_instant(creation_second(snowflake_id), 0, layout) {
            Some(_) => Some(Self::get_account_creation(snowflake_id, format)),
            None => None,
        }
    }

    /// Shows the instant that `time_str` writes in `format`, or in the
    /// report's own layout. Text that writes no instant comes back as it
    /// is. The layout must be one that can be applied to the instant;
    /// [`Utils::try_format_time`] asks for nothing.
    pub fn format_time(time_str: &String, format: Option<&str>) -> (shown: String)
        requires
            time_text(time_str@, layout_or_default(format)) is Some,
        ensures
            Some(shown@) == time_text(time_str@, layout_or_default(format)),
    {
        let layout = match format {
            Some(layout) => layout,
            None => DEFAULT_TIME_FORMAT,
        };
        match parse_instant(time_str.as_str()) {
            Some(instant) => format_instant(instant.0, instant.1, layout).unwrap(),
            None => time_str.clone(),
        }
    }

    /// Shows the instant that `time_str` writes, as [`Utils::format_time`]
    /// does, or nothing where the layout cannot be applied to it.
    pub fn try_format_time(time_str: &String, format: Option<&str>) -> (shown: Option<String>)
        ensures
            opt_text(shown) == time_text(time_str@, layout_or_default(format)),
    {
        let layout = match format {
            Some(layout) => layout,
            None => DEFAULT_TIME_FORMAT,
        };
        let applies = match parse_instant(time_str.as_str()) {
            Some(instant) => format_instant(instant.0, instant.1, layout).is_some(),
            None => true,
        };
        if applies {
            Some(Self::format_time(time_str, format))
        } else {
            None
        }
    }

    /// Shows an instant in the report's own layout. Text that writes no
    /// instant is shown as it is.
    pub fn show_time(time_str: &String) -> (shown: String)
        ensures
            shown@ == shown_time(time_str@),
    {
        match Self::try_format_time(time_str, None) {
            Some(shown) => shown,
            None => time_str.clone(),
        }
    }

    /// Names a relationship kind: by the first entry of the table that is
    /// for it, and as unknown where there is none.
    pub fn friend_type_label(kind: i32) -> (name: &'static str)
        ensures
            name@ == friend_type_name(kind, FRIEND_TYPE_LEN as int),
    {
        let mut i: usize = 0;
        while i < FRIEND_TYPE_LEN
            invariant
                i <= FRIEND_TYPE_LEN,
                !has_friend_type(kind, i as int),
            decreases FRIEND_TYPE_LEN - i,
        {
            let entry = friend_type(i);
            if entry.0 == kind {
                proof {
                    lemma_friend_type_found(kind, i as int, FRIEND_TYPE_LEN as int);
                }
                return entry.1;
            }
            i = i + 1;
        }
        proof {
            lemma_friend_type_missing(kind, FRIEND_TYPE_LEN as int);
        }
        UNKNOWN_FRIEND_TYPE
    }

    /// Names the public flags of an account, in the order of the table.
    pub fn get_user_flags(public_flags: i128) -> (names: Vec<String>)
        ensures
            texts(names@) == flag_names(public_flags, USER_FLAGS_LEN as int),
    {
        let mut names: Vec<String> = Vec::new();
        let mut i: usize = 0;
        while i < USER_FLAGS_LEN
            invariant
                i <= USER_FLAGS_LEN,
                texts(names@) == flag_names(public_flags, i as int),
            decreases USER_FLAGS_LEN - i,
        {
            let entry = user_flag(i);
            if (public_flags & entry.0) == entry.0 && entry.0 != 0 {
                names.push(String::from_str(entry.1));
            }
            i = i + 1;
        }
        names
    }

    /// Reads a delay given in whole seconds.
    pub fn parse_duration_secs(arg: &str) -> (parsed: Result<Duration, ParseIntError>)
        ensures
            match (parsed, written_natural(arg@)) {
                (Ok(delay), Some(n)) => n <= u64::MAX && delay == duration_of_secs(n as u64),
                (Ok(_), None) => false,
                (Err(_), Some(n)) => n > u64::MAX,
                (Err(_), None) => true,
            },
    {
        match parse_u64(arg) {
            Ok(seconds) => Ok(duration_from_secs(seconds)),
            Err(e) => Err(e),
        }
    }

    /// Names the permissions that a member has, in the order of the table.
    /// Text that writes no integer of 128 bits grants none.
    pub fn get_user_permissions(user_permissions: &str) -> (names: Vec<String>)
        ensures
            texts(names@) == permission_names(
                permission_bits(user_permissions@),
                USER_PERMISSIONS_LEN as int,
            ),
    {
        let bits: i128 = match parse_i128(user_permissions) {
            Some(v) => v,
            None => 0,
        };
        let mut names: Vec<String> = Vec::new();
        let mut i: usize = 0;
        while i < USER_PERMISSIONS_LEN
            invariant
                i <= USER_PERMISSIONS_LEN,
                texts(names@) == permission_names(bits, i as int),
            decreases USER_PERMISSIONS_LEN - i,
        {
            let entry = user_permission(i);
            if (bits & entry.0) == entry.0 {
                names.push(String::from_str(entry.1));
            }
            i = i + 1;
        }
        names
    }

    /// Looks `key` up in a table of loosely typed values. The result is
    /// never `None`: where the table has no text under the key, it is the
    /// default, and the empty text where no default is given.
    pub fn get_string_value(
        dict: &StringHashMap<StrOrInt>,
        key: &str,
        default_value: Option<&str>,
    ) -> (found: Option<String>)
        ensures
            found is Some,
            found->0@ == string_value(
                dict@,
                key@,
                match default_value {
                    Some(text) => Some(text@),
                    None => None,
                },
            ),
    {
        match dict.get(key) {
            Some(StrOrInt::StrV(value)) => Some(value.clone()),
            _ => match default_value {
                Some(text) => Some(String::from_str(text)),
                None => Some(String::new()),
            },
        }
    }

    /// Counts the unconsumed credits among the entitlements of an account:
    /// first those of the classic tier, then those of the boost tier.
    pub fn count_credits(entitlements: &Vec<Gift>) -> (credits: (usize, usize))
        ensures
            credits.0 == plan_count(entitlements@, CLASSIC_CREDIT_PLAN@),
            credits.1 == plan_count(entitlements@, BOOST_CREDIT_PLAN@),
    {
        let classic_plan = String::from_str(CLASSIC_CREDIT_PLAN);
        let boost_plan = String::from_str(BOOST_CREDIT_PLAN);
        let mut classic: usize = 0;
        let mut boost: usize = 0;
        let mut i: usize = 0;
        while i < entitlements.len()
            invariant
                i <= entitlements@.len(),
                classic_plan@ == CLASSIC_CREDIT_PLAN@,
                boost_plan@ == BOOST_CREDIT_PLAN@,
                classic == plan_count(entitlements@.take(i as int), CLASSIC_CREDIT_PLAN@),
                boost == plan_count(entitlements@.take(i as int), BOOST_CREDIT_PLAN@),
            decreases entitlements@.len() - i,
        {
            proof {
                let upto = entitlements@.take(i + 1);
                assert(upto.drop_last() =~= entitlements@.take(i as int));
                lemma_plan_count_bound(upto, CLASSIC_CREDIT_PLAN@);
                lemma_plan_count_bound(upto, BOOST_CREDIT_PLAN@);
            }
            match &entitlements[i].subscription_plan {
                Some(plan) => {
                    if plan.name == classic_plan {
                        classic = classic + 1;
                    }
                    if plan.name == boost_plan {
                        boost = boost + 1;
                    }
                },
                None => {},
            }
            i = i + 1;
        }
        assert(entitlements@.take(i as int) =~= entitlements@);
        (classic, boost)
    }

    /// Folds the outcome of one auxiliary call into its slot: the payload
    /// where the call succeeded, `default` where it failed. A call that was
    /// told to back off raises `rate_limited`; nothing ever lowers it.
    pub fn process_result<T>(
        result: Result<T, ApiError>,
        rate_limited: &mut bool,
        default: T,
    ) -> (value: T)
        ensures
            value == slot_value(result, default),
            *final(rate_limited) == (*old(rate_limited) || is_rate_limited(result)),
    {
        match result {
            Ok(payload) => payload,
            Err(ApiError::RateLimited(_)) => {
                *rate_limited = true;
                default
            },
            Err(_) => default,
        }
    }

    /// Builds the address of an asset on the content delivery network.
    pub fn gen_url(
        cdn_type: CdnType,
        type_id: &String,
        hash: &String,
        image_type: ImageType,
    ) -> (url: String)
        ensures
            url@ == asset_url(cdn_type, type_id@, hash@, image_type),
    {
        let mut url = String::from_str(DISCORD_CDN_BASE);
        url.append("/");
        url.append(cdn_type.as_str());
        url.append("/");
        url.append(type_id.as_str());
        url.append("/");
        url.append(hash.as_str());
        url.append(".");
        url.append(image_type.as_str());
        url
    }

    /// Tells whether a hash marks an animated image.
    pub fn is_animated_hash(hash: &str) -> (animated: bool)
        ensures
            animated == is_animated(hash@),
    {
        hash.unicode_len() >= 2 && hash.get_char(0) == 'a' && hash.get_char(1) == '_'
    }

    /// Builds the address of the avatar `hash` of the account or guild
    /// `type_id`: animated where the hash carries the marker, else static.
    pub fn get_avatar(type_id: &String, hash: &String) -> (url: String)
        ensures
            url@ == asset_url(
                CdnType::UserAvatar,
                type_id@,
                hash@,
                extension_for(is_animated(hash@)),
            ),
    {
        let animated = Self::is_animated_hash(hash.as_str());
        Self::gen_url(
            CdnType::UserAvatar,
            type_id,
            hash,
            if animated {
                ImageType::Gif
            } else {
                ImageType::Png
            },
        )
    }

    /// Builds the address of the banner `hash` of the account or guild
    /// `type_id`: animated where the hash carries the marker, else static.
    pub fn get_banner(banner_type: BannerType, type_id: &String, hash: &String) -> (url: String)
        ensures
            url@ == asset_url(
                CdnType::Banner(banner_type),
                type_id@,
                hash@,
                extension_for(is_animated(hash@)),
            ),
    {
        let animated = Self::is_animated_hash(hash.as_str());
        Self::gen_url(
            CdnType::Banner(banner_type),
            type_id,
            hash,
            if animated {
                ImageType::Gif
            } else {
                ImageType::Png
            },
        )
    }

    /// Hides the last dot-delimited segment of a credential: every byte of
    /// it becomes an asterisk. A credential without a dot comes back as it
    /// is.
    pub fn mask_last_part(token: &str) -> (shown: String)
        ensures
            shown@ == masked(token@),
            !token@.contains('.') ==> shown@ == token@,
            forall|dot: int| is_last_dot(token@, dot) ==> shown@ == masked_after(token@, dot),
    {
        proof {
            lemma_last_dot(token@);
        }
        let chars = chars_of(token);
        let mut end: usize = chars.len();
        while end > 0 && chars[end - 1] != '.'
            invariant
                end <= chars@.len(),
                forall|j: int| end <= j < chars@.len() ==> chars@[j] != '.',
            decreases end,
        {
            end = end - 1;
        }
        if end == 0 {
            token.to_owned()
        } else {
            let secret = string_of(&chars, end, chars.len());
            let mut shown = string_of(&chars, 0, end);
            proof {
                reveal_strlit("*");
            }
            append_repeated(&mut shown, "*", secret.as_str().as_bytes().len());
            proof {
                assert forall|dot: int| is_last_dot(token@, dot) implies dot == end - 1 by {
                    if dot < end - 1 {
                    }
                }
            }
            shown
        }
    }
}

impl CdnType {
    /// The path segment under which the content delivery network keeps this
    /// kind of asset.
    pub open spec fn spec_str(&self) -> Seq<char> {
        match self {
            CdnType::UserAvatar => "avatars"@,
            CdnType::Banner(_) => "banners"@,
            CdnType::GuildIcon => "icons"@,
        }
    }

    /// Returns the path segment of this asset kind.
    pub fn as_str<'a>(&self) -> (segment: &'a str)
        ensures
            segment@ == self.spec_str(),
    {
        match self {
            CdnType::UserAvatar => "avatars",
            CdnType::Banner(BannerType::Guild | BannerType::User) => "banners",
            CdnType::GuildIcon => "icons",
        }
    }
}

impl ImageType {
    /// The file extension of this image format, without the dot.
    pub open spec fn spec_str(&self) -> Seq<char> {
        match self {
            ImageType::Png => "png"@,
            ImageType::Jpg => "jpg"@,
            ImageType::Jpeg => "jpeg"@,
            ImageType::Webp => "webp"@,
            ImageType::Gif => "gif"@,
            ImageType::Svg => "svg"@,
        }
    }

    /// Returns the file extension of this image format.
    pub fn as_str<'a>(&self) -> (extension: &'a str)
        ensures
            extension@ == self.spec_str(),
    {
        match self {
            ImageType::Png => "png",
            ImageType::Jpg => "jpg",
            ImageType::Jpeg => "jpeg",
            ImageType::Webp => "webp",
            ImageType::Gif => "gif",
            ImageType::Svg => "svg",
        }
    }
}

} // verus!
