//! The gateway's settings and their defaults.
use vstd::prelude::*;
use crate::text::owned;

verus! {

/// The settings the gateway runs with.
#[derive(Debug, Clone)]
pub struct Config {
    pub bitcoin_rpc_url: String,
    pub bitcoin_rpc_user: String,
    pub bitcoin_rpc_pass: String,
    pub stacks_rpc_url: String,
    pub api_port: u16,
    pub api_token: String,
}

/// A given text, or the default where none was given.
pub open spec fn text_or(given: Option<String>, default: Seq<char>) -> Seq<char> {
    match given {
        Some(s) => s@,
        None => default,
    }
}

fn or_default(given: Option<String>, default: &str) -> (r: String)
    ensures
        r@ == text_or(given, default@),
{
    match given {
        Some(s) => s,
        None => owned(default),
    }
}

impl Config {
    /// The settings from the values that were given, each missing one taking
    /// its default: a local test node for each chain, user `user` with
    /// password `pass`, port 3000, and the token `institutional-default-token`.
    pub fn with_defaults(
        bitcoin_rpc_url: Option<String>,
        bitcoin_rpc_user: Option<String>,
        bitcoin_rpc_pass: Option<String>,
        stacks_rpc_url: Option<String>,
        api_port: Option<u16>,
        api_token: Option<String>,
    ) -> (r: Config)
        ensures
            r.bitcoin_rpc_url@ == text_or(bitcoin_rpc_url, "http://localhost:18332"@),
            r.bitcoin_rpc_user@ == text_or(bitcoin_rpc_user, "user"@),
            r.bitcoin_rpc_pass@ == text_or(bitcoin_rpc_pass, "pass"@),
            r.stacks_rpc_url@ == text_or(stacks_rpc_url, "http://localhost:20443"@),
            r.api_port == match api_port {
                Some(p) => p,
                None => 3000,
            },
            r.api_token@ == text_or(api_token, "institutional-default-token"@),
    {
        Config {
            bitcoin_rpc_url: or_default(bitcoin_rpc_url, "http://localhost:18332"),
            bitcoin_rpc_user: or_default(bitcoin_rpc_user, "user"),
            bitcoin_rpc_pass: or_default(bitcoin_rpc_pass, "pass"),
            stacks_rpc_url: or_default(stacks_rpc_url, "http://localhost:20443"),
            api_port: match api_port {
                Some(p) => p,
                None => 3000,
            },
            api_token: or_default(api_token, "institutional-default-token"),
        }
    }
}

} // verus!
