//! Strongly typed identifiers, one per entity kind.
//!
//! IDs are equality-comparable, hashable and ordered, and are never
//! interchangeable across kinds even though each carries the same
//! underlying representation.

use vstd::prelude::*;

verus! {

/// Identifies a channel.
#[derive(Clone, Copy, PartialEq, Eq, Structural, Hash, Debug, PartialOrd, Ord)]
pub struct ChannelId(pub u64);

/// Identifies a server.
#[derive(Clone, Copy, PartialEq, Eq, Structural, Hash, Debug, PartialOrd, Ord)]
pub struct ServerId(pub u64);

/// Identifies a message.
#[derive(Clone, Copy, PartialEq, Eq, Structural, Hash, Debug, PartialOrd, Ord)]
pub struct MessageId(pub u64);

/// Identifies a user.
#[derive(Clone, Copy, PartialEq, Eq, Structural, Hash, Debug, PartialOrd, Ord)]
pub struct UserId(pub u64);

/// Identifies a server member.
#[derive(Clone, Copy, PartialEq, Eq, Structural, Hash, Debug, PartialOrd, Ord)]
pub struct MemberId(pub u64);

/// Identifies a role within a server.
#[derive(Clone, Copy, PartialEq, Eq, Structural, Hash, Debug, PartialOrd, Ord)]
pub struct RoleId(pub u64);

/// Identifies an uploaded attachment.
#[derive(Clone, Copy, PartialEq, Eq, Structural, Hash, Debug, PartialOrd, Ord)]
pub struct AttachmentId(pub u64);

} // verus!
