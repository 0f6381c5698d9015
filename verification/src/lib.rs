//! Reliable broadcast of signed messages and blocks between the nodes of a cluster.

pub mod api;
pub mod block;
pub mod broadcast;
pub mod broadcast_protocol;
pub mod bytes;
pub mod cache;
pub mod cli;
pub mod config;
pub mod crypto;
pub mod database;
pub mod dht;
pub mod encoding;
pub mod ephemera;
pub mod hex;
pub mod http;
pub mod utilities;
