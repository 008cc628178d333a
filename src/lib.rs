//! Real-time message distribution for a chat backend: the connection
//! registry, the per-connection session lifecycle, the fan-out of inbound
//! message batches to the online members of a channel, and the request
//! types and input rules that surround them.

pub mod account;
pub mod channel;
pub mod fanout;
pub mod message;
pub mod registry;
pub mod session;
pub mod strength;
