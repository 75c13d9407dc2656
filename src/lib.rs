//! Peer-to-peer chat overlay: record registries, the command grammar and the
//! decision core of the overlay engine.

pub mod channels;
pub mod command;
pub mod identity;
pub mod overlay;
pub mod peers;
pub mod store;
pub mod types;
