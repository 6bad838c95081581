//! Verified core of a desktop companion that mirrors what a user is
//! currently watching on the web into Discord rich presence.

pub mod decimal;
pub mod watching;
pub mod settings;
pub mod user_store;
pub mod presence;
pub mod rpc_link;
pub mod polling;
pub mod greeting;
