//! Client-side control plane of a mesh VPN: a sans-IO message/event router
//! together with its DNS-sentinel subsystem. Inbound portal messages and
//! tunnel-engine events are turned into explicit actions (tunnel commands,
//! portal messages, background tasks) by verified transition functions; the
//! surrounding runtime performs the actions and feeds results back.
pub mod addr;
pub mod dns;
pub mod ident;
pub mod sentinel;
pub mod resolver;
pub mod messages;
pub mod control;
