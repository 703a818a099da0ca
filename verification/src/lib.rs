//! Probing model providers and talking over Keybase chat: the decisions, without the network
//! and the subprocesses.

pub mod channel;
pub mod discovery;
pub mod discovery_laws;
pub mod json;
pub mod json_laws;
pub mod keybase;
pub mod keybase_api;
pub mod keybase_laws;
pub mod message_laws;
pub mod model_probe;
pub mod model_probe_laws;
pub mod probe;
pub mod probe_cache;
pub mod probe_laws;
pub mod provider_health;
pub mod provider_laws;
pub mod text;
pub mod text_laws;
