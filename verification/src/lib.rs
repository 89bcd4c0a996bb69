//! Typed request construction and data models for the discordlist.gg bot
//! listing service.

pub mod client;
pub mod endpoint;
pub mod features;
pub mod http;
pub mod model;
pub mod search;
pub mod undocumented;
pub mod wire;
