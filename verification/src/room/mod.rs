//! Collaborative rooms: members, the apps that run inside a room, and how
//! mutations and subscriptions are routed between them.

pub mod types;
pub mod keyed_log;
pub mod document;
pub mod runtime;
pub mod node_id;
