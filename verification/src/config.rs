//! Process-lifetime configuration and endpoint resolution.

use vstd::prelude::*;
use vstd::string::*;

verus! {

/// Amount handed out per claim when none is configured, in base units.
pub const DEFAULT_AIRDROP_AMOUNT: u64 = 5_000_000_000;

/// Cooldown between claims when none is configured, in seconds.
pub const DEFAULT_RATE_LIMIT_SECS: u64 = 3600;

/// Listen port when none is configured.
pub const DEFAULT_PORT: u16 = 3000;

/// Settings fixed at startup and read-only afterwards.
#[derive(Debug, Clone, PartialEq, Eq)]
pub struct FaucetConfig {
    /// Upstream endpoint override supplied by the environment.
    pub rpc_url: String,
    /// Amount of one airdrop, in base units.
    pub airdrop_amount: u64,
    /// Minimum number of seconds between two claims of one address.
    pub rate_limit_secs: u64,
}

/// The endpoint that serves a network name: the testnet endpoint for
/// `"testnet"`, the devnet endpoint for every other name.
pub open spec fn rpc_url_of(network: Seq<char>) -> Seq<char> {
    if network == "testnet"@ {
        "https://api.testnet.solana.com"@
    } else {
        "https://api.devnet.solana.com"@
    }
}

/// The network a claim addresses: the one it names, `"devnet"` when it
/// names none.
pub open spec fn network_or_default(network: Option<Seq<char>>) -> Seq<char> {
    match network {
        Some(name) => name,
        None => "devnet"@,
    }
}

/// Resolves a network name to its endpoint. Unrecognised names fall back
/// to devnet without an error.
pub fn get_rpc_url(network: &str) -> (url: String)
    ensures
        url@ == rpc_url_of(network@),
{
    let wanted = String::from_str(network);
    let testnet = String::from_str("testnet");
    if wanted == testnet {
        String::from_str("https://api.testnet.solana.com")
    } else {
        String::from_str("https://api.devnet.solana.com")
    }
}

/// A numeric setting: the value supplied, or `default` where none was
/// supplied or the one supplied could not be read.
pub open spec fn setting_or(value: Option<u64>, default: u64) -> u64 {
    match value {
        Some(v) => v,
        None => default,
    }
}

impl FaucetConfig {
    /// Builds the configuration from what the environment supplied. Each
    /// setting that is missing or unreadable silently takes its default:
    /// the devnet endpoint, five whole tokens, one hour.
    pub fn from_settings(
        rpc_url: Option<String>,
        airdrop_amount: Option<u64>,
        rate_limit_secs: Option<u64>,
    ) -> (config: FaucetConfig)
        ensures
            config.rpc_url@ == match rpc_url {
                Some(url) => url@,
                None => rpc_url_of("devnet"@),
            },
            config.airdrop_amount == setting_or(airdrop_amount, DEFAULT_AIRDROP_AMOUNT),
            config.rate_limit_secs == setting_or(rate_limit_secs, DEFAULT_RATE_LIMIT_SECS),
    {
        FaucetConfig {
            rpc_url: match rpc_url {
                Some(url) => url,
                None => get_rpc_url("devnet"),
            },
            airdrop_amount: match airdrop_amount {
                Some(amount) => amount,
                None => DEFAULT_AIRDROP_AMOUNT,
            },
            rate_limit_secs: match rate_limit_secs {
                Some(secs) => secs,
                None => DEFAULT_RATE_LIMIT_SECS,
            },
        }
    }
}

} // verus!
