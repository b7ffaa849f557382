//! Entities, their all-optional partial projections, and the per-kind
//! enumerations of clearable fields.
//!
//! A field tag exists in a field enumeration exactly when the
//! corresponding entity field is optional: clearing resets such a
//! field to its absent state, independently of whether a patch touched
//! it.

use vstd::prelude::*;

use crate::cache::CacheEntity;
use crate::id::{AttachmentId, ChannelId, MemberId, MessageId, ServerId, UserId};

verus! {

/// An equal copy of an optional string.
pub fn clone_opt_string(o: &Option<String>) -> (r: Option<String>)
    ensures
        r == *o,
{
    match o {
        Some(s) => Some(s.clone()),
        None => None,
    }
}

/// A user account.
#[derive(Clone, Debug, PartialEq, Eq)]
pub struct User {
    pub id: UserId,
    pub username: String,
    pub nickname: Option<String>,
    pub status: Option<String>,
}

/// The clearable fields of a user.
#[derive(Clone, Copy, PartialEq, Eq, Structural, Debug, Hash)]
pub enum UserField {
    Nickname,
    Status,
}

/// All-optional projection of `User`: "set these fields to these
/// values", carrying no clearing information of its own.
#[derive(Clone, Debug, PartialEq, Eq)]
pub struct PartialUser {
    pub username: Option<String>,
    pub nickname: Option<String>,
    pub status: Option<String>,
}

impl CacheEntity for User {
    open spec fn key(&self) -> u64 {
        self.id.0
    }

    fn entity_key(&self) -> u64 {
        self.id.0
    }

    fn duplicate(&self) -> Self {
        User {
            id: self.id,
            username: self.username.clone(),
            nickname: clone_opt_string(&self.nickname),
            status: clone_opt_string(&self.status),
        }
    }
}

/// A channel; `server` is absent for direct-message channels.
#[derive(Clone, Debug, PartialEq, Eq)]
pub struct Channel {
    pub id: ChannelId,
    pub name: String,
    pub server: Option<ServerId>,
    pub description: Option<String>,
}

impl Channel {
    /// The server this channel belongs to, if any.
    pub fn server_id(&self) -> (r: Option<ServerId>)
        ensures
            r == self.server,
    {
        self.server
    }
}

/// The clearable fields of a channel.
#[derive(Clone, Copy, PartialEq, Eq, Structural, Debug, Hash)]
pub enum ChannelField {
    Server,
    Description,
}

/// All-optional projection of `Channel`.
#[derive(Clone, Debug, PartialEq, Eq)]
pub struct PartialChannel {
    pub name: Option<String>,
    pub server: Option<ServerId>,
    pub description: Option<String>,
}

impl CacheEntity for Channel {
    open spec fn key(&self) -> u64 {
        self.id.0
    }

    fn entity_key(&self) -> u64 {
        self.id.0
    }

    fn duplicate(&self) -> Self {
        Channel {
            id: self.id,
            name: self.name.clone(),
            server: self.server,
            description: clone_opt_string(&self.description),
        }
    }
}

/// A server.
#[derive(Clone, Debug, PartialEq, Eq)]
pub struct Server {
    pub id: ServerId,
    pub name: String,
    pub description: Option<String>,
    pub icon: Option<AttachmentId>,
}

/// The clearable fields of a server.
#[derive(Clone, Copy, PartialEq, Eq, Structural, Debug, Hash)]
pub enum ServerField {
    Description,
    Icon,
}

/// All-optional projection of `Server`.
#[derive(Clone, Debug, PartialEq, Eq)]
pub struct PartialServer {
    pub name: Option<String>,
    pub description: Option<String>,
    pub icon: Option<AttachmentId>,
}

impl CacheEntity for Server {
    open spec fn key(&self) -> u64 {
        self.id.0
    }

    fn entity_key(&self) -> u64 {
        self.id.0
    }

    fn duplicate(&self) -> Self {
        Server {
            id: self.id,
            name: self.name.clone(),
            description: clone_opt_string(&self.description),
            icon: self.icon,
        }
    }
}

/// A server member.
#[derive(Clone, Debug, PartialEq, Eq)]
pub struct Member {
    pub id: MemberId,
    pub nickname: Option<String>,
    pub avatar: Option<AttachmentId>,
}

/// The clearable fields of a member.
#[derive(Clone, Copy, PartialEq, Eq, Structural, Debug, Hash)]
pub enum MemberField {
    Nickname,
    Avatar,
}

/// All-optional projection of `Member`.
#[derive(Clone, Debug, PartialEq, Eq)]
pub struct PartialMember {
    pub nickname: Option<String>,
    pub avatar: Option<AttachmentId>,
}

impl CacheEntity for Member {
    open spec fn key(&self) -> u64 {
        self.id.0
    }

    fn entity_key(&self) -> u64 {
        self.id.0
    }

    fn duplicate(&self) -> Self {
        Member {
            id: self.id,
            nickname: clone_opt_string(&self.nickname),
            avatar: self.avatar,
        }
    }
}

/// A role within a server; roles travel in role events next to their
/// own `RoleId` and are not a cached kind of their own.
#[derive(Clone, Debug, PartialEq, Eq)]
pub struct Role {
    pub name: String,
    pub colour: Option<String>,
}

/// The clearable fields of a role.
#[derive(Clone, Copy, PartialEq, Eq, Structural, Debug, Hash)]
pub enum RoleField {
    Colour,
}

/// All-optional projection of `Role`.
#[derive(Clone, Debug, PartialEq, Eq)]
pub struct PartialRole {
    pub name: Option<String>,
    pub colour: Option<String>,
}

/// A message sent in a channel.
#[derive(Clone, Debug, PartialEq, Eq)]
pub struct Message {
    pub id: MessageId,
    pub channel: ChannelId,
    pub author: UserId,
    pub content: String,
}

/// All-optional projection of `Message`.  Message updates carry no
/// clear list, so there is no `MessageField` enumeration.
#[derive(Clone, Debug, PartialEq, Eq)]
pub struct PartialMessage {
    pub content: Option<String>,
}

impl CacheEntity for Message {
    open spec fn key(&self) -> u64 {
        self.id.0
    }

    fn entity_key(&self) -> u64 {
        self.id.0
    }

    fn duplicate(&self) -> Self {
        Message {
            id: self.id,
            channel: self.channel,
            author: self.author,
            content: self.content.clone(),
        }
    }
}

/// The set of user fields an update explicitly clears: one flag per
/// clearable field.
#[derive(Clone, Copy, PartialEq, Eq, Structural, Debug)]
pub struct UserClears {
    pub nickname: bool,
    pub status: bool,
}

impl UserClears {
    /// The empty clear set.
    pub fn none() -> (r: Self)
        ensures
            !r.nickname && !r.status,
    {
        UserClears { nickname: false, status: false }
    }
}

/// The set of channel fields an update explicitly clears.
#[derive(Clone, Copy, PartialEq, Eq, Structural, Debug)]
pub struct ChannelClears {
    pub server: bool,
    pub description: bool,
}

impl ChannelClears {
    /// The empty clear set.
    pub fn none() -> (r: Self)
        ensures
            !r.server && !r.description,
    {
        ChannelClears { server: false, description: false }
    }
}

/// The set of server fields an update explicitly clears.
#[derive(Clone, Copy, PartialEq, Eq, Structural, Debug)]
pub struct ServerClears {
    pub description: bool,
    pub icon: bool,
}

impl ServerClears {
    /// The empty clear set.
    pub fn none() -> (r: Self)
        ensures
            !r.description && !r.icon,
    {
        ServerClears { description: false, icon: false }
    }
}

/// The set of member fields an update explicitly clears.
#[derive(Clone, Copy, PartialEq, Eq, Structural, Debug)]
pub struct MemberClears {
    pub nickname: bool,
    pub avatar: bool,
}

impl MemberClears {
    /// The empty clear set.
    pub fn none() -> (r: Self)
        ensures
            !r.nickname && !r.avatar,
    {
        MemberClears { nickname: false, avatar: false }
    }
}

/// The set of role fields an update explicitly clears.
#[derive(Clone, Copy, PartialEq, Eq, Structural, Debug)]
pub struct RoleClears {
    pub colour: bool,
}

impl RoleClears {
    /// The empty clear set.
    pub fn none() -> (r: Self)
        ensures
            !r.colour,
    {
        RoleClears { colour: false }
    }
}

/// The relationship between the current user and another user.
#[derive(Clone, Copy, PartialEq, Eq, Structural, Debug, Hash)]
pub enum RelationshipStatus {
    NoRelation,
    User,
    Friend,
    Outgoing,
    Incoming,
    Blocked,
    BlockedOther,
}

/// A reply attached to an outgoing message.
#[derive(Clone, Copy, PartialEq, Eq, Structural, Debug)]
pub struct ReplyData {
    pub id: MessageId,
    pub mention: bool,
}

} // verus!
