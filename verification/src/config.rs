use vstd::prelude::*;

use crate::utils::text::{ascii_lowercase, chars_of};

verus! {

/// The Miden network the indexer follows.
#[derive(Debug, Clone, Copy, PartialEq, Eq, Structural)]
pub enum MidenNetwork {
    Mainnet,
    Testnet,
    Devnet,
}

/// The indexer's settings.
#[derive(Debug, Clone)]
pub struct Config {
    pub postgres_url: String,
    pub rpc_url: String,
    pub miden_network: MidenNetwork,
    pub http_port: u16,
}

/// The HTTP port used when none is configured.
pub const DEFAULT_HTTP_PORT: u16 = 8080;

/// What `str::to_lowercase` makes of a string.
pub uninterp spec fn unicode_lowercase(s: Seq<char>) -> Seq<char>;

/// Every character is ASCII.
pub open spec fn all_ascii_chars(s: Seq<char>) -> bool {
    forall|i: int| 0 <= i < s.len() ==> (#[trigger] s[i] as u32) < 128
}

/// Lowercases a string with `str::to_lowercase`: the result is named by
/// `unicode_lowercase`; for an ASCII string it is the string with its ASCII letters
/// lowercased (ASCII letters lowercase to ASCII letters, other ASCII characters are kept).
#[verifier::external_body]
fn to_lowercase(s: &str) -> (r: String)
    ensures
        r@ == unicode_lowercase(s@),
        all_ascii_chars(s@) ==> r@ == ascii_lowercase(s@),
{
    s.to_lowercase()
}

/// The network a lowercase name stands for: `mainnet`, `testnet` or `devnet`.
pub open spec fn network_of_name(name: Seq<char>) -> Option<MidenNetwork> {
    if name == "mainnet"@ {
        Some(MidenNetwork::Mainnet)
    } else if name == "testnet"@ {
        Some(MidenNetwork::Testnet)
    } else if name == "devnet"@ {
        Some(MidenNetwork::Devnet)
    } else {
        None
    }
}

/// The network named by `raw`, compared after lowercasing.
pub open spec fn network_named(raw: Seq<char>) -> Option<MidenNetwork> {
    network_of_name(unicode_lowercase(raw))
}

/// The network an already lowercased name stands for; `None` for any other name.
pub fn network_from_name(name: &str) -> (r: Option<MidenNetwork>)
    ensures
        r == network_of_name(name@),
{
    let name = name.to_owned();
    if name == String::from_str("mainnet") {
        Some(MidenNetwork::Mainnet)
    } else if name == String::from_str("testnet") {
        Some(MidenNetwork::Testnet)
    } else if name == String::from_str("devnet") {
        Some(MidenNetwork::Devnet)
    } else {
        None
    }
}

/// Reads the `MIDEN_NETWORK` setting; `None` when it names no known network.
pub fn parse_miden_network(raw: &str) -> (r: Option<MidenNetwork>)
    ensures
        r == network_named(raw@),
        all_ascii_chars(raw@) ==> r == network_of_name(ascii_lowercase(raw@)),
{
    let name = to_lowercase(raw);
    network_from_name(name.as_str())
}

/// Whether `c` is one of the digits `0`..`9`.
pub open spec fn is_digit(c: char) -> bool {
    48 <= (c as u32) <= 57
}

/// The number written by a sequence of decimal digits.
pub open spec fn digits_value(s: Seq<char>) -> nat
    decreases s.len(),
{
    if s.len() == 0 {
        0
    } else {
        digits_value(s.drop_last()) * 10 + ((s.last() as u32) - 48) as nat
    }
}

/// Every character is a decimal digit.
pub open spec fn all_digits(s: Seq<char>) -> bool {
    forall|i: int| 0 <= i < s.len() ==> is_digit(#[trigger] s[i])
}

/// `s` without a leading `+`.
pub open spec fn unsigned_part(s: Seq<char>) -> Seq<char> {
    if s.len() > 0 && s[0] == '+' {
        s.drop_first()
    } else {
        s
    }
}

/// What `str::parse::<u16>` accepts: an optional `+`, then one or more decimal digits,
/// whose value is at most 65535.
pub open spec fn parsed_u16(s: Seq<char>) -> Option<u16> {
    let digits = unsigned_part(s);
    if digits.len() > 0 && all_digits(digits) && digits_value(digits) <= u16::MAX {
        Some(digits_value(digits) as u16)
    } else {
        None
    }
}

proof fn lemma_digits_value_grows(s: Seq<char>, k: int)
    requires
        0 <= k <= s.len(),
        forall|i: int| 0 <= i < s.len() ==> is_digit(#[trigger] s[i]),
    ensures
        digits_value(s.take(k)) <= digits_value(s),
    decreases s.len() - k,
{
    if k < s.len() {
        lemma_digits_value_grows(s, k + 1);
        assert(s.take(k + 1).drop_last() == s.take(k));
    } else {
        assert(s.take(k) == s);
    }
}

/// Parses a decimal `u16` as `str::parse::<u16>` does; `None` for anything it rejects.
pub fn parse_u16(s: &str) -> (r: Option<u16>)
    ensures
        r == parsed_u16(s@),
{
    let cs = chars_of(s);
    let start: usize = if cs.len() > 0 && cs[0] == '+' {
        1
    } else {
        0
    };
    let ghost digits = unsigned_part(cs@);
    assert(digits == cs@.subrange(start as int, cs@.len() as int));
    if start == cs.len() {
        return None;
    }
    let mut value: u32 = 0;
    let mut i: usize = start;
    while i < cs.len()
        invariant
            start <= i <= cs.len(),
            cs@ == s@,
            digits == unsigned_part(s@),
            digits.len() > 0,
            digits == cs@.subrange(start as int, cs@.len() as int),
            value as nat == digits_value(digits.take(i - start)),
            value <= u16::MAX,
            forall|k: int| 0 <= k < i - start ==> is_digit(#[trigger] digits[k]),
        decreases cs.len() - i,
    {
        let c = cs[i];
        let u = c as u32;
        assert(digits[i - start] == c);
        if u < 48 || u > 57 {
            assert(!is_digit(digits[i - start]));
            assert(!all_digits(digits));
            return None;
        }
        assert(digits.take(i + 1 - start).drop_last() == digits.take(i - start));
        assert(digits.take(i + 1 - start).last() == c);
        value = value * 10 + (u - 48);
        assert(value as nat == digits_value(digits.take(i + 1 - start)));
        if value > 65535 {
            proof {
                assert(forall|k: int| 0 <= k < i + 1 - start ==> is_digit(#[trigger] digits[k]));
                if all_digits(digits) {
                    lemma_digits_value_grows(digits, i + 1 - start);
                    assert(digits_value(digits) > u16::MAX);
                }
            }
            return None;
        }
        i = i + 1;
    }
    assert(digits.take(cs.len() - start) == digits);
    Some(value as u16)
}

/// The HTTP port for an `HTTP_PORT` setting: the setting when it parses as a `u16`, else 8080.
pub open spec fn configured_port(value: Option<String>) -> u16 {
    match value {
        Some(s) => match parsed_u16(s@) {
            Some(p) => p,
            None => DEFAULT_HTTP_PORT,
        },
        None => DEFAULT_HTTP_PORT,
    }
}

/// The HTTP port: the `HTTP_PORT` setting when it parses as a `u16`, else 8080.
pub fn parse_http_port(value: Option<String>) -> (port: u16)
    ensures
        port == configured_port(value),
{
    match value {
        Some(s) => match parse_u16(s.as_str()) {
            Some(p) => p,
            None => DEFAULT_HTTP_PORT,
        },
        None => DEFAULT_HTTP_PORT,
    }
}

/// Why the settings do not make a configuration.
#[derive(Debug, Clone)]
pub enum ConfigError {
    MissingPostgresUrl,
    MissingRpcUrl,
    MissingMidenNetwork,
    /// `MIDEN_NETWORK` names no known network; holds the setting, lowercased.
    UnknownMidenNetwork(String),
}

impl ConfigError {
    /// The error's message.
    pub fn message(&self) -> (r: String)
        ensures
            r@ == match self {
                ConfigError::MissingPostgresUrl => "POSTGRES_URL must be set"@,
                ConfigError::MissingRpcUrl => "RPC_URL must be set"@,
                ConfigError::MissingMidenNetwork => "MIDEN_NETWORK must be set"@,
                ConfigError::UnknownMidenNetwork(got) => "MIDEN_NETWORK must be `mainnet`, `testnet`, or `devnet` (got `"@
                    + got@ + "`)"@,
            },
    {
        match self {
            ConfigError::MissingPostgresUrl => String::from_str("POSTGRES_URL must be set"),
            ConfigError::MissingRpcUrl => String::from_str("RPC_URL must be set"),
            ConfigError::MissingMidenNetwork => String::from_str("MIDEN_NETWORK must be set"),
            ConfigError::UnknownMidenNetwork(got) => {
                let mut m = String::from_str(
                    "MIDEN_NETWORK must be `mainnet`, `testnet`, or `devnet` (got `",
                );
                m.append(got.as_str());
                m.append("`)");
                m
            },
        }
    }
}

/// The configuration made of the settings `POSTGRES_URL`, `RPC_URL`, `MIDEN_NETWORK` and
/// `HTTP_PORT` (each `None` when unset): the first missing required setting, in that order,
/// or an unknown network, is an error; the port falls back to 8080.
pub fn build_config(
    postgres_url: Option<String>,
    rpc_url: Option<String>,
    miden_network: Option<String>,
    http_port: Option<String>,
) -> (r: Result<Config, ConfigError>)
    ensures
        postgres_url is None ==> r matches Err(ConfigError::MissingPostgresUrl),
        postgres_url is Some && rpc_url is None ==> r matches Err(ConfigError::MissingRpcUrl),
        postgres_url is Some && rpc_url is Some && miden_network is None ==> r matches Err(
            ConfigError::MissingMidenNetwork,
        ),
        postgres_url is Some && rpc_url is Some && miden_network is Some && network_named(
            miden_network->0@,
        ) is None ==> (r matches Err(ConfigError::UnknownMidenNetwork(got)) && got@
            == unicode_lowercase(miden_network->0@)),
        postgres_url is Some && rpc_url is Some && miden_network is Some && network_named(
            miden_network->0@,
        ) is Some ==> (r matches Ok(c) && c.postgres_url@ == postgres_url->0@ && c.rpc_url@
            == rpc_url->0@ && Some(c.miden_network) == network_named(miden_network->0@)
            && c.http_port == configured_port(http_port)),
        postgres_url is Some && rpc_url is Some && miden_network is Some && all_ascii_chars(
            miden_network->0@,
        ) ==> network_named(miden_network->0@) == network_of_name(
            ascii_lowercase(miden_network->0@),
        ) && (r matches Err(ConfigError::UnknownMidenNetwork(got)) ==> got@ == ascii_lowercase(
            miden_network->0@,
        )),
{
    let postgres_url = match postgres_url {
        Some(u) => u,
        None => return Err(ConfigError::MissingPostgresUrl),
    };
    let rpc_url = match rpc_url {
        Some(u) => u,
        None => return Err(ConfigError::MissingRpcUrl),
    };
    let raw = match miden_network {
        Some(n) => n,
        None => return Err(ConfigError::MissingMidenNetwork),
    };
    let miden_network = match parse_miden_network(raw.as_str()) {
        Some(n) => n,
        None => return Err(ConfigError::UnknownMidenNetwork(to_lowercase(raw.as_str()))),
    };
    let http_port = parse_http_port(http_port);
    Ok(Config { postgres_url, rpc_url, miden_network, http_port })
}

} // verus!
