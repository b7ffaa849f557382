//! Client-side model for a real-time chat platform: the tagged event
//! protocol exchanged over a persistent connection, the partial-patch /
//! explicit-clear convention used to mutate cached entities, and the
//! cache-or-fetch resolution funnel shared by every entity accessor.

pub mod apply;
pub mod cache;
pub mod codec;
pub mod entity;
pub mod events;
pub mod id;
pub mod model;
pub mod patch;
pub mod resolve;
pub mod wire;
