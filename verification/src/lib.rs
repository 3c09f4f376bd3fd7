//! Verified core of the agtalk message bus daemon.

pub mod text;
pub mod decimal;
pub mod proto;
pub mod waiters;
pub mod graph;
pub mod daemon;
pub mod pathname;
pub mod handlers;
pub mod json;
pub mod sessions;
pub mod admission;
pub mod inbox;
pub mod identity;
pub mod mem;
pub mod messaging;
pub mod migrate;
pub mod requests;
pub mod connection;
pub mod schema;
pub mod longpoll;
