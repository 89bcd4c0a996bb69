//! Addresses of the service's operations.
//!
//! The text of each address is put together here from fixed templates and
//! decimal identifiers, with an exact contract. The URL parser of `reqwest`
//! then checks and normalises that text; what it makes of a text is known to
//! the contracts only by name.
//!
//! The parser keeps positions within a URL in 32 bits. An address is changed
//! (a pair appended, the host replaced) only where it is short enough for
//! the changed address to stay far below that limit; a longer one is
//! refused. The bound was chosen against version 2.5.8 of the `url` crate,
//! which `reqwest` hands on as `reqwest::Url`; the manifest holds `url` to
//! that version.

use crate::wire::chars_of;
use reqwest::Url;
use vstd::prelude::*;
use vstd::string::{StrSliceExecFns, StringExecFns};

verus! {

/// What `Url::parse` makes of `text`: the serialisation of the URL it
/// parsed, or `None` where it refuses the text.
pub uninterp spec fn parsed_url(text: Seq<char>) -> Option<Seq<char>>;

/// The serialisation of the URL `url` after one name/value pair was appended
/// to its query, or `None` where `url` does not parse.
pub uninterp spec fn url_with_query_pair(
    url: Seq<char>,
    name: Seq<char>,
    value: Seq<char>,
) -> Option<Seq<char>>;

/// The serialisation of the URL `url` after its host was replaced by `host`,
/// or `None` where `url` does not parse or the host is refused.
pub uninterp spec fn url_with_host(url: Seq<char>, host: Seq<char>) -> Option<Seq<char>>;

/// The longest address, in characters, whose query or host this library
/// changes: 2^20 - 1. The parser may write several bytes for one character
/// (percent-encoding, international host names); with this bound the parsed
/// address stays below 2^32 bytes by a wide margin.
pub const MAX_URL_CHARS: usize = 0x000f_ffff;

/// The longest name, value or host, in characters, that is put into an
/// address.
pub const MAX_PART_CHARS: usize = 255;

/// Calls `Url::parse` on `text` and hands back the parsed URL as text. The
/// contract only names the outcome: the same text always gives the same
/// result.
#[verifier::external_body]
fn parse_url(text: &str) -> (r: Option<String>)
    ensures
        chars_of(r) == parsed_url(text@),
{
    match Url::parse(text) {
        Ok(url) => Some(url.into()),
        Err(_) => None,
    }
}

/// Parses `url`, calls `Url::query_pairs_mut` and `Serializer::append_pair`
/// on it with `name` and `value`, and hands back the URL as text. The
/// contract only names the outcome. The texts are bounded because the calls
/// panic on a URL that reaches 2^32 bytes.
#[verifier::external_body]
fn append_query_pair(url: &str, name: &str, value: &str) -> (r: Option<String>)
    requires
        url@.len() <= MAX_URL_CHARS,
        name@.len() <= MAX_PART_CHARS,
        value@.len() <= MAX_PART_CHARS,
    ensures
        chars_of(r) == url_with_query_pair(url@, name@, value@),
{
    match Url::parse(url) {
        Ok(mut parsed) => {
            parsed.query_pairs_mut().append_pair(name, value);
            Some(parsed.into())
        },
        Err(_) => None,
    }
}

/// Parses `url`, calls `Url::set_host` on it with `host`, and hands back the
/// URL as text. The contract only names the outcome. The texts are bounded
/// because the call may panic on a URL that comes close to 2^32 bytes.
#[verifier::external_body]
fn replace_host(url: &str, host: &str) -> (r: Option<String>)
    requires
        url@.len() <= MAX_URL_CHARS,
        host@.len() <= MAX_PART_CHARS,
    ensures
        chars_of(r) == url_with_host(url@, host@),
{
    match Url::parse(url) {
        Ok(mut parsed) => match parsed.set_host(Some(host)) {
            Ok(_) => Some(parsed.into()),
            Err(_) => None,
        },
        Err(_) => None,
    }
}

/// The character that stands for a decimal digit.
pub open spec fn digit_char(d: nat) -> char
    recommends
        d < 10,
{
    if d == 0 {
        '0'
    } else if d == 1 {
        '1'
    } else if d == 2 {
        '2'
    } else if d == 3 {
        '3'
    } else if d == 4 {
        '4'
    } else if d == 5 {
        '5'
    } else if d == 6 {
        '6'
    } else if d == 7 {
        '7'
    } else if d == 8 {
        '8'
    } else {
        '9'
    }
}

/// The decimal numeral of `n`, without sign or leading zero.
pub open spec fn decimal(n: nat) -> Seq<char>
    decreases n,
{
    if n < 10 {
        seq![digit_char(n)]
    } else {
        decimal(n / 10).push(digit_char(n % 10))
    }
}

/// Scheme, host and version that every address of the service starts with.
pub open spec fn api_base() -> Seq<char> {
    "https://api.discordlist.gg/v0"@
}

/// The host that answers searches.
pub open spec fn search_host() -> Seq<char> {
    "search.discordlist.gg"@
}

/// The text of the address of `path`: the base followed by the path.
pub open spec fn endpoint_text(path: Seq<char>) -> Seq<char> {
    api_base() + path
}

/// The address of `path` on the service, as the URL parser gives it.
pub open spec fn endpoint_url(path: Seq<char>) -> Option<Seq<char>> {
    parsed_url(endpoint_text(path))
}

/// The path under which the guild count of bot `bot_id` is set.
pub open spec fn guilds_path(bot_id: u64) -> Seq<char> {
    "/bots/"@ + decimal(bot_id as nat) + "/guilds"@
}

/// The path under which command `command_id` of bot `bot_id` is registered.
pub open spec fn command_path(bot_id: u64, command_id: u64) -> Seq<char> {
    "/bots/"@ + decimal(bot_id as nat) + "/commands/"@ + decimal(command_id as nat)
}

/// The path of the listing of bot `id`.
pub open spec fn bot_path(id: u64) -> Seq<char> {
    "/bots/"@ + decimal(id as nat)
}

/// The path of the profile of user `id`.
pub open spec fn user_path(id: u64) -> Seq<char> {
    "/users/"@ + decimal(id as nat)
}

/// The path of the search operation.
pub open spec fn search_path() -> Seq<char> {
    "/bots/search"@
}

/// The address `url` with the guild count `count` as the pair `count` in its
/// query; `None` where the address is longer than `MAX_URL_CHARS`.
pub open spec fn guild_count_added(url: Seq<char>, count: u64) -> Option<Seq<char>> {
    if url.len() <= MAX_URL_CHARS {
        url_with_query_pair(url, "count"@, decimal(count as nat))
    } else {
        None
    }
}

/// The address `url` moved to the search host; `None` where the address is
/// longer than `MAX_URL_CHARS`.
pub open spec fn moved_to_search_host(url: Seq<char>) -> Option<Seq<char>> {
    if url.len() <= MAX_URL_CHARS {
        url_with_host(url, search_host())
    } else {
        None
    }
}

/// The address at which the guild count of bot `bot_id` is set to `count`:
/// the endpoint of the guilds path with the pair `count` appended to its
/// query.
pub open spec fn guild_count_url(bot_id: u64, count: u64) -> Option<Seq<char>> {
    match endpoint_url(guilds_path(bot_id)) {
        Some(url) => guild_count_added(url, count),
        None => None,
    }
}

/// The address of the search operation: the endpoint of the search path,
/// moved to the search host.
pub open spec fn search_url() -> Option<Seq<char>> {
    match endpoint_url(search_path()) {
        Some(url) => moved_to_search_host(url),
        None => None,
    }
}

/// Ten to the power of `d`.
pub open spec fn pow10(d: nat) -> nat
    decreases d,
{
    if d == 0 {
        1
    } else {
        10 * pow10((d - 1) as nat)
    }
}

/// A number below ten to the power of `d` has a numeral of at most `d`
/// digits.
pub proof fn lemma_decimal_len(n: nat, d: nat)
    requires
        d >= 1,
        n < pow10(d),
    ensures
        1 <= decimal(n).len() <= d,
    decreases d,
{
    if n >= 10 {
        assert(pow10(1) == 10) by {
            reveal_with_fuel(pow10, 2);
        }
        assert(d >= 2);
        assert(n / 10 < pow10((d - 1) as nat));
        lemma_decimal_len(n / 10, (d - 1) as nat);
    }
}

/// The numeral of a 64-bit number has at most twenty digits.
pub proof fn lemma_decimal_is_short(n: u64)
    ensures
        1 <= decimal(n as nat).len() <= 20,
{
    assert(pow10(20) == 100000000000000000000) by {
        reveal_with_fuel(pow10, 21);
    }
    lemma_decimal_len(n as nat, 20);
}

fn digit_str(d: u64) -> (r: &'static str)
    requires
        d < 10,
    ensures
        r@ == seq![digit_char(d as nat)],
{
    proof {
        reveal_strlit("0");
        reveal_strlit("1");
        reveal_strlit("2");
        reveal_strlit("3");
        reveal_strlit("4");
        reveal_strlit("5");
        reveal_strlit("6");
        reveal_strlit("7");
        reveal_strlit("8");
        reveal_strlit("9");
    }
    let r = if d == 0 {
        "0"
    } else if d == 1 {
        "1"
    } else if d == 2 {
        "2"
    } else if d == 3 {
        "3"
    } else if d == 4 {
        "4"
    } else if d == 5 {
        "5"
    } else if d == 6 {
        "6"
    } else if d == 7 {
        "7"
    } else if d == 8 {
        "8"
    } else {
        "9"
    };
    assert(r@ =~= seq![digit_char(d as nat)]);
    r
}

/// Writes `n` as a decimal numeral.
pub fn decimal_string(n: u64) -> (r: String)
    ensures
        r@ == decimal(n as nat),
    decreases n,
{
    if n < 10 {
        String::from_str(digit_str(n))
    } else {
        let mut s = decimal_string(n / 10);
        s.append(digit_str(n % 10));
        assert(s@ =~= decimal(n as nat));
        s
    }
}

/// Puts the text of the address of `path` together.
pub fn endpoint_string(path: &str) -> (r: String)
    ensures
        r@ == endpoint_text(path@),
{
    let mut s = String::from_str("https://api.discordlist.gg/v0");
    s.append(path);
    s
}

/// The address of `path` on the service. `None` where the URL parser refuses
/// the text, which it does for no path that this library builds from its
/// templates.
pub fn endpoint(path: &str) -> (r: Option<String>)
    ensures
        chars_of(r) == endpoint_url(path@),
{
    let text = endpoint_string(path);
    parse_url(text.as_str())
}

/// Puts the guilds path of bot `bot_id` together.
pub fn guilds_path_string(bot_id: u64) -> (r: String)
    ensures
        r@ == guilds_path(bot_id),
{
    let mut s = String::from_str("/bots/");
    let id = decimal_string(bot_id);
    s.append(id.as_str());
    s.append("/guilds");
    s
}

/// Puts the path of command `command_id` of bot `bot_id` together.
pub fn command_path_string(bot_id: u64, command_id: u64) -> (r: String)
    ensures
        r@ == command_path(bot_id, command_id),
{
    let mut s = String::from_str("/bots/");
    let bot = decimal_string(bot_id);
    s.append(bot.as_str());
    s.append("/commands/");
    let command = decimal_string(command_id);
    s.append(command.as_str());
    s
}

/// Puts the path of the listing of bot `id` together.
pub fn bot_path_string(id: u64) -> (r: String)
    ensures
        r@ == bot_path(id),
{
    let mut s = String::from_str("/bots/");
    let id = decimal_string(id);
    s.append(id.as_str());
    s
}

/// Puts the path of the profile of user `id` together.
pub fn user_path_string(id: u64) -> (r: String)
    ensures
        r@ == user_path(id),
{
    let mut s = String::from_str("/users/");
    let id = decimal_string(id);
    s.append(id.as_str());
    s
}

/// Appends the pair `count` to the query of `endpoint`, the outcome of
/// parsing an endpoint text. `None` where there is no address, where it is
/// longer than `MAX_URL_CHARS`, or where it is no URL.
pub fn with_guild_count(endpoint: Option<String>, count: u64) -> (r: Option<String>)
    ensures
        chars_of(r) == match chars_of(endpoint) {
            Some(url) => guild_count_added(url, count),
            None => None,
        },
{
    match endpoint {
        Some(url) => {
            if url.as_str().unicode_len() > MAX_URL_CHARS {
                return None;
            }
            let value = decimal_string(count);
            proof {
                lemma_decimal_is_short(count);
                reveal_strlit("count");
            }
            append_query_pair(url.as_str(), "count", value.as_str())
        },
        None => None,
    }
}

/// Moves `endpoint`, the outcome of parsing an endpoint text, to the search
/// host. `None` where there is no address, where it is longer than
/// `MAX_URL_CHARS`, or where it is no URL.
pub fn on_search_host(endpoint: Option<String>) -> (r: Option<String>)
    ensures
        chars_of(r) == match chars_of(endpoint) {
            Some(url) => moved_to_search_host(url),
            None => None,
        },
{
    match endpoint {
        Some(url) => {
            if url.as_str().unicode_len() > MAX_URL_CHARS {
                return None;
            }
            proof {
                reveal_strlit("search.discordlist.gg");
            }
            replace_host(url.as_str(), "search.discordlist.gg")
        },
        None => None,
    }
}

} // verus!
