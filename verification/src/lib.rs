//! Verified core of the relayer order API: the decisions that the JSON-RPC
//! front end takes for each order request, the encodings it relies on, and the
//! small data types it exchanges with the relayer core.
pub mod types;
pub mod utils;
pub mod rpc_types;
pub mod hex_codec;
pub mod decimal;
pub mod config;
pub mod table;
pub mod meta;
pub mod json;
pub mod handler;
pub mod handler_laws;
pub mod kafka_topic;
