use vstd::prelude::*;
use vstd::utf8::encode_utf8;
use crate::decimal::{parse_unsigned, parse_unsigned_str};

verus! {

/// The text of an environment variable, or `default` where it is unset.
pub open spec fn text_or(value: Option<String>, default: Seq<char>) -> Seq<char> {
    match value {
        Some(v) => v@,
        None => default,
    }
}

/// The number of server threads that `RPC_SERVER_THREAD` asks for: its value
/// read as a `usize`, or 2 where it is unset or does not read as one.
pub open spec fn thread_count_for(value: Option<String>) -> nat {
    match value {
        Some(v) => match parse_unsigned(encode_utf8(v@), usize::MAX as nat) {
            Some(n) => n,
            None => 2,
        },
        None => 2,
    }
}

/// The server's settings, each taken from an environment variable or its
/// default.
pub struct RelayerConfig {
    /// `RelayerVersion`, default `0.1.0`.
    pub relayer_version: String,
    /// `SnapshotVersion`, default `1.000`.
    pub snapshot_version: String,
    /// `RPC_QUEUE_MODE`, default `DIRECT`.
    pub rpc_queue_mode: String,
    /// `RPC_SERVER_SOCKETADDR`, default `0.0.0.0:3032`.
    pub rpc_server_socketaddr: String,
    /// `RPC_SERVER_THREAD`, default 2.
    pub rpc_server_thread: usize,
}

/// `value`, or the text `default` where it is `None`.
fn or_default(value: Option<String>, default: &str) -> (s: String)
    ensures
        s@ == text_or(value, default@),
{
    match value {
        Some(v) => v,
        None => default.to_owned(),
    }
}

/// Reads the number of server threads from the value of `RPC_SERVER_THREAD`.
pub fn thread_count(value: Option<String>) -> (n: usize)
    ensures
        n as nat == thread_count_for(value),
{
    match value {
        Some(v) => match parse_unsigned_str(v.as_str(), usize::MAX as u128) {
            Some(n) => n as usize,
            None => 2,
        },
        None => 2,
    }
}

/// The Kafka broker address: the value of `BROKER`, or `localhost:9092`.
pub fn broker_address(value: Option<String>) -> (s: String)
    ensures
        s@ == text_or(value, "localhost:9092"@),
{
    or_default(value, "localhost:9092")
}

impl RelayerConfig {
    /// The settings for the given environment values, each `None` where its
    /// variable is unset.
    pub fn from_env_values(
        relayer_version: Option<String>,
        snapshot_version: Option<String>,
        rpc_queue_mode: Option<String>,
        rpc_server_socketaddr: Option<String>,
        rpc_server_thread: Option<String>,
    ) -> (c: Self)
        ensures
            c.relayer_version@ == text_or(relayer_version, "0.1.0"@),
            c.snapshot_version@ == text_or(snapshot_version, "1.000"@),
            c.rpc_queue_mode@ == text_or(rpc_queue_mode, "DIRECT"@),
            c.rpc_server_socketaddr@ == text_or(rpc_server_socketaddr, "0.0.0.0:3032"@),
            c.rpc_server_thread as nat == thread_count_for(rpc_server_thread),
    {
        RelayerConfig {
            relayer_version: or_default(relayer_version, "0.1.0"),
            snapshot_version: or_default(snapshot_version, "1.000"),
            rpc_queue_mode: or_default(rpc_queue_mode, "DIRECT"),
            rpc_server_socketaddr: or_default(rpc_server_socketaddr, "0.0.0.0:3032"),
            rpc_server_thread: thread_count(rpc_server_thread),
        }
    }
}

} // verus!
