//! The event protocol: the two closed tagged unions exchanged over the
//! connection, and how they decode from and encode to wire objects.
//!
//! Every message is an object whose `type` key selects the variant;
//! unknown keys are ignored, an unknown discriminator or a payload
//! that fails structural validation is a `ProtocolDecodeError`, and an
//! omitted `clear` field means "no explicit clears".

use vstd::prelude::*;

use crate::codec::{
    channel_clear_wire, channel_of, get_channel_clears, get_member_clears, get_role_clears, get_server_clears,
    get_user_clears, member_clear_wire, message_of, opt_str_wire, partial_channel_fields,
    partial_channel_of, partial_member_fields, partial_member_of, partial_message_fields,
    partial_message_of, partial_role_fields, partial_role_of, partial_server_fields,
    partial_server_of, partial_user_fields, partial_user_of, role_clear_wire, server_clear_wire,
    spec_channel_of, spec_get_channel_clears, user_clear_wire,
    spec_get_member_clears, spec_get_role_clears, spec_get_server_clears, spec_get_user_clears,
    spec_message_of, spec_partial_channel_of, spec_partial_member_of, spec_partial_message_of,
    spec_partial_role_of, spec_partial_server_of, spec_partial_user_of,
};
use crate::entity::{
    Channel, ChannelClears, Member, MemberClears, Message, PartialChannel, PartialMember,
    PartialMessage, PartialRole, PartialServer, PartialUser, RelationshipStatus, RoleClears,
    Server, ServerClears, User, UserClears,
};
use crate::id::{ChannelId, MemberId, MessageId, RoleId, ServerId, UserId};
use crate::wire::{
    dec_list, enc_list, get_str, get_u32, get_u64, get_u8, lemma_obj_get1, lemma_obj_get2,
    lemma_obj_get3, lemma_obj_get4, lemma_obj_get5, obj_get, spec_dec_list, spec_get_arr,
    spec_get_obj, spec_get_str, spec_get_u32, spec_get_u64, spec_get_u8, ProtocolDecodeError,
    WireValue,
};

verus! {

/// Any message the client can send to the server.  The two
/// authentication shapes travel under one wire discriminator, since
/// only one client identity mode is active per connection.
#[derive(Debug, PartialEq, Eq, Hash)]
pub enum ClientToServerEvent {
    Authenticate { user_id: UserId, session_token: String },
    AuthenticateBot { token: String },
    BeginTyping { channel: ChannelId },
    EndTyping { channel: ChannelId },
    Ping { time: u32, data: u8 },
}

/// The bulk snapshot delivered once after authentication.
#[derive(Debug, PartialEq, Eq)]
pub struct ReadyEvent {
    pub users: Vec<User>,
    pub servers: Vec<Server>,
    pub channels: Vec<Channel>,
    pub members: Vec<Member>,
}

/// Any message that the server can send to the client.
#[derive(Debug, PartialEq, Eq)]
pub enum ServerToClientEvent {
    Error { error: String },
    Authenticated,
    Pong { time: u32 },
    Ready { event: ReadyEvent },
    Message { message: Message },
    MessageUpdate { id: MessageId, channel: ChannelId, data: PartialMessage },
    MessageDelete { id: MessageId, channel: ChannelId },
    ChannelCreate { channel: Channel },
    ChannelUpdate { id: ChannelId, data: PartialChannel, clear: Option<ChannelClears> },
    ChannelDelete { id: ChannelId },
    ChannelGroupJoin { id: ChannelId, user: UserId },
    ChannelGroupLeave { id: ChannelId, user: UserId },
    ChannelStartTyping { id: ChannelId, user: UserId },
    ChannelStopTyping { id: ChannelId, user: UserId },
    ChannelAck { id: ChannelId, user: UserId, message_id: MessageId },
    ServerUpdate { id: ServerId, data: PartialServer, clear: Option<ServerClears> },
    ServerDelete { id: ServerId },
    ServerMemberUpdate { id: MemberId, data: PartialMember, clear: Option<MemberClears> },
    ServerMemberJoin { id: ServerId, user: UserId },
    ServerMemberLeave { id: ServerId, user: UserId },
    ServerRoleUpdate { id: ServerId, role_id: RoleId, data: PartialRole, clear: Option<RoleClears> },
    ServerRoleDelete { id: ServerId, role_id: RoleId },
    UserUpdate { id: UserId, data: PartialUser, clear: Option<UserClears> },
    UserRelationship { id: UserId, user: UserId, status: RelationshipStatus },
}

/// The raw discriminator of a wire message, empty when there is none.
pub open spec fn spec_tag_view(v: WireValue) -> Seq<char> {
    match v {
        WireValue::Obj(o) => match spec_get_str(o@, "type"@) {
            Some(t) => t@,
            None => Seq::<char>::empty(),
        },
        _ => Seq::<char>::empty(),
    }
}

/// The wire tag of a relationship status.
pub open spec fn spec_rel_tag(st: RelationshipStatus) -> Seq<char> {
    match st {
        RelationshipStatus::NoRelation => "None"@,
        RelationshipStatus::User => "User"@,
        RelationshipStatus::Friend => "Friend"@,
        RelationshipStatus::Outgoing => "Outgoing"@,
        RelationshipStatus::Incoming => "Incoming"@,
        RelationshipStatus::Blocked => "Blocked"@,
        RelationshipStatus::BlockedOther => "BlockedOther"@,
    }
}

/// What a status tag reads as.
pub open spec fn spec_rel_of(t: Seq<char>) -> Option<RelationshipStatus> {
    if t == "None"@ {
        Some(RelationshipStatus::NoRelation)
    } else if t == "User"@ {
        Some(RelationshipStatus::User)
    } else if t == "Friend"@ {
        Some(RelationshipStatus::Friend)
    } else if t == "Outgoing"@ {
        Some(RelationshipStatus::Outgoing)
    } else if t == "Incoming"@ {
        Some(RelationshipStatus::Incoming)
    } else if t == "Blocked"@ {
        Some(RelationshipStatus::Blocked)
    } else if t == "BlockedOther"@ {
        Some(RelationshipStatus::BlockedOther)
    } else {
        None
    }
}

/// Reads a status tag, exactly as `spec_rel_of` describes it.
fn rel_of(t: &String) -> (r: Option<RelationshipStatus>)
    ensures
        r == spec_rel_of(t@),
{
    if *t == "None".to_owned() {
        Some(RelationshipStatus::NoRelation)
    } else if *t == "User".to_owned() {
        Some(RelationshipStatus::User)
    } else if *t == "Friend".to_owned() {
        Some(RelationshipStatus::Friend)
    } else if *t == "Outgoing".to_owned() {
        Some(RelationshipStatus::Outgoing)
    } else if *t == "Incoming".to_owned() {
        Some(RelationshipStatus::Incoming)
    } else if *t == "Blocked".to_owned() {
        Some(RelationshipStatus::Blocked)
    } else if *t == "BlockedOther".to_owned() {
        Some(RelationshipStatus::BlockedOther)
    } else {
        None
    }
}

/// Renders a status tag; reading it back yields the status.
fn rel_tag_string(st: RelationshipStatus) -> (r: String)
    ensures
        r@ == spec_rel_tag(st),
        spec_rel_of(r@) == Some(st),
{
    proof {
        reveal_strlit("None");
        reveal_strlit("User");
        reveal_strlit("Friend");
        reveal_strlit("Outgoing");
        reveal_strlit("Incoming");
        reveal_strlit("Blocked");
        reveal_strlit("BlockedOther");
        assert("None"@.len() == 4);
        assert("User"@.len() == 4);
        assert("Friend"@.len() == 6);
        assert("Outgoing"@.len() == 8);
        assert("Incoming"@.len() == 8);
        assert("Blocked"@.len() == 7);
        assert("BlockedOther"@.len() == 12);
        assert("None"@[0] == 'N' && "User"@[0] == 'U');
        assert("Outgoing"@[0] == 'O' && "Incoming"@[0] == 'I');
    }
    match st {
        RelationshipStatus::NoRelation => "None".to_owned(),
        RelationshipStatus::User => "User".to_owned(),
        RelationshipStatus::Friend => "Friend".to_owned(),
        RelationshipStatus::Outgoing => "Outgoing".to_owned(),
        RelationshipStatus::Incoming => "Incoming".to_owned(),
        RelationshipStatus::Blocked => "Blocked".to_owned(),
        RelationshipStatus::BlockedOther => "BlockedOther".to_owned(),
    }
}

/// Whether a wire message is a structurally valid inbound event:
/// a recognized discriminator whose payload validates.
pub open spec fn spec_server_ok(v: WireValue) -> bool {
    v matches WireValue::Obj(o) && {
        let oo = o@;
        spec_get_str(oo, "type"@) matches Some(t) && {
            if t@ == "Error"@ {
                spec_get_str(oo, "error"@) is Some
            } else if t@ == "Authenticated"@ {
                true
            } else if t@ == "Pong"@ {
                spec_get_u32(oo, "time"@) is Some
            } else if t@ == "Ready"@ {
                &&& spec_get_arr(oo, "users"@) matches Some(us) && spec_dec_list::<User>(us)
                    is Some
                &&& spec_get_arr(oo, "servers"@) matches Some(ss) && spec_dec_list::<Server>(ss)
                    is Some
                &&& spec_get_arr(oo, "channels"@) matches Some(cs) && spec_dec_list::<Channel>(cs)
                    is Some
                &&& spec_get_arr(oo, "members"@) matches Some(ms) && spec_dec_list::<Member>(ms)
                    is Some
            } else if t@ == "Message"@ {
                spec_message_of(oo) is Some
            } else if t@ == "MessageUpdate"@ {
                &&& spec_get_u64(oo, "id"@) is Some
                &&& spec_get_u64(oo, "channel"@) is Some
                &&& spec_get_obj(oo, "data"@) matches Some(d) && spec_partial_message_of(d)
                    is Some
            } else if t@ == "MessageDelete"@ {
                spec_get_u64(oo, "id"@) is Some && spec_get_u64(oo, "channel"@) is Some
            } else if t@ == "ChannelCreate"@ {
                spec_channel_of(oo) is Some
            } else if t@ == "ChannelUpdate"@ {
                &&& spec_get_u64(oo, "id"@) is Some
                &&& spec_get_obj(oo, "data"@) matches Some(d) && spec_partial_channel_of(d)
                    is Some
                &&& spec_get_channel_clears(oo) is Some
            } else if t@ == "ChannelDelete"@ {
                spec_get_u64(oo, "id"@) is Some
            } else if t@ == "ChannelGroupJoin"@ {
                spec_get_u64(oo, "id"@) is Some && spec_get_u64(oo, "user"@) is Some
            } else if t@ == "ChannelGroupLeave"@ {
                spec_get_u64(oo, "id"@) is Some && spec_get_u64(oo, "user"@) is Some
            } else if t@ == "ChannelStartTyping"@ {
                spec_get_u64(oo, "id"@) is Some && spec_get_u64(oo, "user"@) is Some
            } else if t@ == "ChannelStopTyping"@ {
                spec_get_u64(oo, "id"@) is Some && spec_get_u64(oo, "user"@) is Some
            } else if t@ == "ChannelAck"@ {
                &&& spec_get_u64(oo, "id"@) is Some
                &&& spec_get_u64(oo, "user"@) is Some
                &&& spec_get_u64(oo, "message_id"@) is Some
            } else if t@ == "ServerUpdate"@ {
                &&& spec_get_u64(oo, "id"@) is Some
                &&& spec_get_obj(oo, "data"@) matches Some(d) && spec_partial_server_of(d) is Some
                &&& spec_get_server_clears(oo) is Some
            } else if t@ == "ServerDelete"@ {
                spec_get_u64(oo, "id"@) is Some
            } else if t@ == "ServerMemberUpdate"@ {
                &&& spec_get_u64(oo, "id"@) is Some
                &&& spec_get_obj(oo, "data"@) matches Some(d) && spec_partial_member_of(d) is Some
                &&& spec_get_member_clears(oo) is Some
            } else if t@ == "ServerMemberJoin"@ {
                spec_get_u64(oo, "id"@) is Some && spec_get_u64(oo, "user"@) is Some
            } else if t@ == "ServerMemberLeave"@ {
                spec_get_u64(oo, "id"@) is Some && spec_get_u64(oo, "user"@) is Some
            } else if t@ == "ServerRoleUpdate"@ {
                &&& spec_get_u64(oo, "id"@) is Some
                &&& spec_get_u64(oo, "role_id"@) is Some
                &&& spec_get_obj(oo, "data"@) matches Some(d) && spec_partial_role_of(d) is Some
                &&& spec_get_role_clears(oo) is Some
            } else if t@ == "ServerRoleDelete"@ {
                spec_get_u64(oo, "id"@) is Some && spec_get_u64(oo, "role_id"@) is Some
            } else if t@ == "UserUpdate"@ {
                &&& spec_get_u64(oo, "id"@) is Some
                &&& spec_get_obj(oo, "data"@) matches Some(d) && spec_partial_user_of(d) is Some
                &&& spec_get_user_clears(oo) is Some
            } else if t@ == "UserRelationship"@ {
                &&& spec_get_u64(oo, "id"@) is Some
                &&& spec_get_u64(oo, "user"@) is Some
                &&& spec_get_str(oo, "status"@) matches Some(st) && spec_rel_of(st@) is Some
            } else {
                false
            }
        }
    }
}

/// How one inbound event relates to the wire message it was read
/// from: the discriminator selects the variant and every payload
/// field equals the corresponding wire field.
pub open spec fn server_event_matches(v: WireValue, ev: ServerToClientEvent) -> bool {
    v matches WireValue::Obj(o) && {
        let oo = o@;
        match ev {
            ServerToClientEvent::Error { error } => spec_tag_view(v) == "Error"@ && spec_get_str(
                oo,
                "error"@,
            ) == Some(error),
            ServerToClientEvent::Authenticated => spec_tag_view(v) == "Authenticated"@,
            ServerToClientEvent::Pong { time } => spec_tag_view(v) == "Pong"@ && spec_get_u32(
                oo,
                "time"@,
            ) == Some(time),
            ServerToClientEvent::Ready { event } => {
                &&& spec_tag_view(v) == "Ready"@
                &&& spec_get_arr(oo, "users"@) matches Some(us) && spec_dec_list::<User>(us)
                    == Some(event.users@)
                &&& spec_get_arr(oo, "servers"@) matches Some(ss) && spec_dec_list::<Server>(ss)
                    == Some(event.servers@)
                &&& spec_get_arr(oo, "channels"@) matches Some(cs) && spec_dec_list::<Channel>(cs)
                    == Some(event.channels@)
                &&& spec_get_arr(oo, "members"@) matches Some(ms) && spec_dec_list::<Member>(ms)
                    == Some(event.members@)
            },
            ServerToClientEvent::Message { message } => spec_tag_view(v) == "Message"@
                && spec_message_of(oo) == Some(message),
            ServerToClientEvent::MessageUpdate { id, channel, data } => {
                &&& spec_tag_view(v) == "MessageUpdate"@
                &&& spec_get_u64(oo, "id"@) == Some(id.0)
                &&& spec_get_u64(oo, "channel"@) == Some(channel.0)
                &&& spec_get_obj(oo, "data"@) matches Some(d) && spec_partial_message_of(d)
                    == Some(data)
            },
            ServerToClientEvent::MessageDelete { id, channel } => {
                &&& spec_tag_view(v) == "MessageDelete"@
                &&& spec_get_u64(oo, "id"@) == Some(id.0)
                &&& spec_get_u64(oo, "channel"@) == Some(channel.0)
            },
            ServerToClientEvent::ChannelCreate { channel } => spec_tag_view(v) == "ChannelCreate"@
                && spec_channel_of(oo) == Some(channel),
            ServerToClientEvent::ChannelUpdate { id, data, clear } => {
                &&& spec_tag_view(v) == "ChannelUpdate"@
                &&& spec_get_u64(oo, "id"@) == Some(id.0)
                &&& spec_get_obj(oo, "data"@) matches Some(d) && spec_partial_channel_of(d)
                    == Some(data)
                &&& spec_get_channel_clears(oo) == Some(clear)
            },
            ServerToClientEvent::ChannelDelete { id } => spec_tag_view(v) == "ChannelDelete"@
                && spec_get_u64(oo, "id"@) == Some(id.0),
            ServerToClientEvent::ChannelGroupJoin { id, user } => {
                &&& spec_tag_view(v) == "ChannelGroupJoin"@
                &&& spec_get_u64(oo, "id"@) == Some(id.0)
                &&& spec_get_u64(oo, "user"@) == Some(user.0)
            },
            ServerToClientEvent::ChannelGroupLeave { id, user } => {
                &&& spec_tag_view(v) == "ChannelGroupLeave"@
                &&& spec_get_u64(oo, "id"@) == Some(id.0)
                &&& spec_get_u64(oo, "user"@) == Some(user.0)
            },
            ServerToClientEvent::ChannelStartTyping { id, user } => {
                &&& spec_tag_view(v) == "ChannelStartTyping"@
                &&& spec_get_u64(oo, "id"@) == Some(id.0)
                &&& spec_get_u64(oo, "user"@) == Some(user.0)
            },
            ServerToClientEvent::ChannelStopTyping { id, user } => {
                &&& spec_tag_view(v) == "ChannelStopTyping"@
                &&& spec_get_u64(oo, "id"@) == Some(id.0)
                &&& spec_get_u64(oo, "user"@) == Some(user.0)
            },
            ServerToClientEvent::ChannelAck { id, user, message_id } => {
                &&& spec_tag_view(v) == "ChannelAck"@
                &&& spec_get_u64(oo, "id"@) == Some(id.0)
                &&& spec_get_u64(oo, "user"@) == Some(user.0)
                &&& spec_get_u64(oo, "message_id"@) == Some(message_id.0)
            },
            ServerToClientEvent::ServerUpdate { id, data, clear } => {
                &&& spec_tag_view(v) == "ServerUpdate"@
                &&& spec_get_u64(oo, "id"@) == Some(id.0)
                &&& spec_get_obj(oo, "data"@) matches Some(d) && spec_partial_server_of(d) == Some(
                    data,
                )
                &&& spec_get_server_clears(oo) == Some(clear)
            },
            ServerToClientEvent::ServerDelete { id } => spec_tag_view(v) == "ServerDelete"@
                && spec_get_u64(oo, "id"@) == Some(id.0),
            ServerToClientEvent::ServerMemberUpdate { id, data, clear } => {
                &&& spec_tag_view(v) == "ServerMemberUpdate"@
                &&& spec_get_u64(oo, "id"@) == Some(id.0)
                &&& spec_get_obj(oo, "data"@) matches Some(d) && spec_partial_member_of(d) == Some(
                    data,
                )
                &&& spec_get_member_clears(oo) == Some(clear)
            },
            ServerToClientEvent::ServerMemberJoin { id, user } => {
                &&& spec_tag_view(v) == "ServerMemberJoin"@
                &&& spec_get_u64(oo, "id"@) == Some(id.0)
                &&& spec_get_u64(oo, "user"@) == Some(user.0)
            },
            ServerToClientEvent::ServerMemberLeave { id, user } => {
                &&& spec_tag_view(v) == "ServerMemberLeave"@
                &&& spec_get_u64(oo, "id"@) == Some(id.0)
                &&& spec_get_u64(oo, "user"@) == Some(user.0)
            },
            ServerToClientEvent::ServerRoleUpdate { id, role_id, data, clear } => {
                &&& spec_tag_view(v) == "ServerRoleUpdate"@
                &&& spec_get_u64(oo, "id"@) == Some(id.0)
                &&& spec_get_u64(oo, "role_id"@) == Some(role_id.0)
                &&& spec_get_obj(oo, "data"@) matches Some(d) && spec_partial_role_of(d) == Some(
                    data,
                )
                &&& spec_get_role_clears(oo) == Some(clear)
            },
            ServerToClientEvent::ServerRoleDelete { id, role_id } => {
                &&& spec_tag_view(v) == "ServerRoleDelete"@
                &&& spec_get_u64(oo, "id"@) == Some(id.0)
                &&& spec_get_u64(oo, "role_id"@) == Some(role_id.0)
            },
            ServerToClientEvent::UserUpdate { id, data, clear } => {
                &&& spec_tag_view(v) == "UserUpdate"@
                &&& spec_get_u64(oo, "id"@) == Some(id.0)
                &&& spec_get_obj(oo, "data"@) matches Some(d) && spec_partial_user_of(d) == Some(
                    data,
                )
                &&& spec_get_user_clears(oo) == Some(clear)
            },
            ServerToClientEvent::UserRelationship { id, user, status } => {
                &&& spec_tag_view(v) == "UserRelationship"@
                &&& spec_get_u64(oo, "id"@) == Some(id.0)
                &&& spec_get_u64(oo, "user"@) == Some(user.0)
                &&& spec_get_str(oo, "status"@) matches Some(st) && spec_rel_of(st@) == Some(
                    status,
                )
            },
        }
    }
}

/// A decode error for a message whose discriminator could not even be
/// read.
fn untagged_error(detail: &str) -> (e: ProtocolDecodeError)
    ensures
        e.tag@ == Seq::<char>::empty(),
{
    ProtocolDecodeError { tag: String::new(), detail: detail.to_owned() }
}

/// A decode error under a recognized or unrecognized discriminator.
fn tagged_error(tag: &String, detail: &str) -> (e: ProtocolDecodeError)
    ensures
        e.tag == *tag,
{
    ProtocolDecodeError { tag: tag.clone(), detail: detail.to_owned() }
}

/// Decodes an inbound wire message: the result is exactly the event
/// the message matches, and decoding fails precisely on messages that
/// are not structurally valid, identifying the raw discriminator.
/// A failure never mutates any state; the caller decides whether it
/// is fatal to the connection or skippable.
pub fn decode_server_event(v: &WireValue) -> (r: Result<ServerToClientEvent, ProtocolDecodeError>)
    ensures
        r matches Ok(ev) ==> spec_server_ok(*v) && server_event_matches(*v, ev),
        r is Err <==> !spec_server_ok(*v),
        r matches Err(e) ==> e.tag@ == spec_tag_view(*v),
{
    let o = match v {
        WireValue::Obj(o) => o,
        _ => {
            return Err(untagged_error("message is not an object"));
        },
    };
    let t = match get_str(o, &("type".to_owned())) {
        Some(t) => t,
        None => {
            return Err(untagged_error("missing type discriminator"));
        },
    };
    if t == "Error".to_owned() {
        match get_str(o, &("error".to_owned())) {
            Some(error) => Ok(ServerToClientEvent::Error { error }),
            None => Err(tagged_error(&t, "error payload")),
        }
    } else if t == "Authenticated".to_owned() {
        Ok(ServerToClientEvent::Authenticated)
    } else if t == "Pong".to_owned() {
        match get_u32(o, &("time".to_owned())) {
            Some(time) => Ok(ServerToClientEvent::Pong { time }),
            None => Err(tagged_error(&t, "time payload")),
        }
    } else if t == "Ready".to_owned() {
        let users = match obj_get(o, &("users".to_owned())) {
            Some(WireValue::Arr(a)) => match dec_list::<User>(a) {
                Some(us) => us,
                None => {
                    return Err(tagged_error(&t, "users payload"));
                },
            },
            _ => {
                return Err(tagged_error(&t, "users payload"));
            },
        };
        let servers = match obj_get(o, &("servers".to_owned())) {
            Some(WireValue::Arr(a)) => match dec_list::<Server>(a) {
                Some(ss) => ss,
                None => {
                    return Err(tagged_error(&t, "servers payload"));
                },
            },
            _ => {
                return Err(tagged_error(&t, "servers payload"));
            },
        };
        let channels = match obj_get(o, &("channels".to_owned())) {
            Some(WireValue::Arr(a)) => match dec_list::<Channel>(a) {
                Some(cs) => cs,
                None => {
                    return Err(tagged_error(&t, "channels payload"));
                },
            },
            _ => {
                return Err(tagged_error(&t, "channels payload"));
            },
        };
        let members = match obj_get(o, &("members".to_owned())) {
            Some(WireValue::Arr(a)) => match dec_list::<Member>(a) {
                Some(ms) => ms,
                None => {
                    return Err(tagged_error(&t, "members payload"));
                },
            },
            _ => {
                return Err(tagged_error(&t, "members payload"));
            },
        };
        Ok(
            ServerToClientEvent::Ready {
                event: ReadyEvent { users, servers, channels, members },
            },
        )
    } else if t == "Message".to_owned() {
        match message_of(o) {
            Some(message) => Ok(ServerToClientEvent::Message { message }),
            None => Err(tagged_error(&t, "message payload")),
        }
    } else if t == "MessageUpdate".to_owned() {
        let id = match get_u64(o, &("id".to_owned())) {
            Some(x) => x,
            None => {
                return Err(tagged_error(&t, "id payload"));
            },
        };
        let channel = match get_u64(o, &("channel".to_owned())) {
            Some(x) => x,
            None => {
                return Err(tagged_error(&t, "channel payload"));
            },
        };
        let data = match obj_get(o, &("data".to_owned())) {
            Some(WireValue::Obj(d)) => match partial_message_of(d) {
                Some(p) => p,
                None => {
                    return Err(tagged_error(&t, "data payload"));
                },
            },
            _ => {
                return Err(tagged_error(&t, "data payload"));
            },
        };
        Ok(
            ServerToClientEvent::MessageUpdate {
                id: MessageId(id),
                channel: ChannelId(channel),
                data,
            },
        )
    } else if t == "MessageDelete".to_owned() {
        let id = match get_u64(o, &("id".to_owned())) {
            Some(x) => x,
            None => {
                return Err(tagged_error(&t, "id payload"));
            },
        };
        let channel = match get_u64(o, &("channel".to_owned())) {
            Some(x) => x,
            None => {
                return Err(tagged_error(&t, "channel payload"));
            },
        };
        Ok(ServerToClientEvent::MessageDelete { id: MessageId(id), channel: ChannelId(channel) })
    } else if t == "ChannelCreate".to_owned() {
        match channel_of(o) {
            Some(channel) => Ok(ServerToClientEvent::ChannelCreate { channel }),
            None => Err(tagged_error(&t, "channel payload")),
        }
    } else if t == "ChannelUpdate".to_owned() {
        let id = match get_u64(o, &("id".to_owned())) {
            Some(x) => x,
            None => {
                return Err(tagged_error(&t, "id payload"));
            },
        };
        let data = match obj_get(o, &("data".to_owned())) {
            Some(WireValue::Obj(d)) => match partial_channel_of(d) {
                Some(p) => p,
                None => {
                    return Err(tagged_error(&t, "data payload"));
                },
            },
            _ => {
                return Err(tagged_error(&t, "data payload"));
            },
        };
        let clear = match get_channel_clears(o) {
            Some(c) => c,
            None => {
                return Err(tagged_error(&t, "clear payload"));
            },
        };
        Ok(ServerToClientEvent::ChannelUpdate { id: ChannelId(id), data, clear })
    } else if t == "ChannelDelete".to_owned() {
        match get_u64(o, &("id".to_owned())) {
            Some(id) => Ok(ServerToClientEvent::ChannelDelete { id: ChannelId(id) }),
            None => Err(tagged_error(&t, "id payload")),
        }
    } else if t == "ChannelGroupJoin".to_owned() {
        match (get_u64(o, &("id".to_owned())), get_u64(o, &("user".to_owned()))) {
            (Some(id), Some(user)) => Ok(
                ServerToClientEvent::ChannelGroupJoin { id: ChannelId(id), user: UserId(user) },
            ),
            _ => Err(tagged_error(&t, "id or user payload")),
        }
    } else if t == "ChannelGroupLeave".to_owned() {
        match (get_u64(o, &("id".to_owned())), get_u64(o, &("user".to_owned()))) {
            (Some(id), Some(user)) => Ok(
                ServerToClientEvent::ChannelGroupLeave { id: ChannelId(id), user: UserId(user) },
            ),
            _ => Err(tagged_error(&t, "id or user payload")),
        }
    } else if t == "ChannelStartTyping".to_owned() {
        match (get_u64(o, &("id".to_owned())), get_u64(o, &("user".to_owned()))) {
            (Some(id), Some(user)) => Ok(
                ServerToClientEvent::ChannelStartTyping { id: ChannelId(id), user: UserId(user) },
            ),
            _ => Err(tagged_error(&t, "id or user payload")),
        }
    } else if t == "ChannelStopTyping".to_owned() {
        match (get_u64(o, &("id".to_owned())), get_u64(o, &("user".to_owned()))) {
            (Some(id), Some(user)) => Ok(
                ServerToClientEvent::ChannelStopTyping { id: ChannelId(id), user: UserId(user) },
            ),
            _ => Err(tagged_error(&t, "id or user payload")),
        }
    } else if t == "ChannelAck".to_owned() {
        match (get_u64(o, &("id".to_owned())), get_u64(o, &("user".to_owned())), get_u64(
            o,
            &("message_id".to_owned()),
        )) {
            (Some(id), Some(user), Some(mid)) => Ok(
                ServerToClientEvent::ChannelAck {
                    id: ChannelId(id),
                    user: UserId(user),
                    message_id: MessageId(mid),
                },
            ),
            _ => Err(tagged_error(&t, "id, user or message_id payload")),
        }
    } else if t == "ServerUpdate".to_owned() {
        let id = match get_u64(o, &("id".to_owned())) {
            Some(x) => x,
            None => {
                return Err(tagged_error(&t, "id payload"));
            },
        };
        let data = match obj_get(o, &("data".to_owned())) {
            Some(WireValue::Obj(d)) => match partial_server_of(d) {
                Some(p) => p,
                None => {
                    return Err(tagged_error(&t, "data payload"));
                },
            },
            _ => {
                return Err(tagged_error(&t, "data payload"));
            },
        };
        let clear = match get_server_clears(o) {
            Some(c) => c,
            None => {
                return Err(tagged_error(&t, "clear payload"));
            },
        };
        Ok(ServerToClientEvent::ServerUpdate { id: ServerId(id), data, clear })
    } else if t == "ServerDelete".to_owned() {
        match get_u64(o, &("id".to_owned())) {
            Some(id) => Ok(ServerToClientEvent::ServerDelete { id: ServerId(id) }),
            None => Err(tagged_error(&t, "id payload")),
        }
    } else if t == "ServerMemberUpdate".to_owned() {
        let id = match get_u64(o, &("id".to_owned())) {
            Some(x) => x,
            None => {
                return Err(tagged_error(&t, "id payload"));
            },
        };
        let data = match obj_get(o, &("data".to_owned())) {
            Some(WireValue::Obj(d)) => match partial_member_of(d) {
                Some(p) => p,
                None => {
                    return Err(tagged_error(&t, "data payload"));
                },
            },
            _ => {
                return Err(tagged_error(&t, "data payload"));
            },
        };
        let clear = match get_member_clears(o) {
            Some(c) => c,
            None => {
                return Err(tagged_error(&t, "clear payload"));
            },
        };
        Ok(ServerToClientEvent::ServerMemberUpdate { id: MemberId(id), data, clear })
    } else if t == "ServerMemberJoin".to_owned() {
        match (get_u64(o, &("id".to_owned())), get_u64(o, &("user".to_owned()))) {
            (Some(id), Some(user)) => Ok(
                ServerToClientEvent::ServerMemberJoin { id: ServerId(id), user: UserId(user) },
            ),
            _ => Err(tagged_error(&t, "id or user payload")),
        }
    } else if t == "ServerMemberLeave".to_owned() {
        match (get_u64(o, &("id".to_owned())), get_u64(o, &("user".to_owned()))) {
            (Some(id), Some(user)) => Ok(
                ServerToClientEvent::ServerMemberLeave { id: ServerId(id), user: UserId(user) },
            ),
            _ => Err(tagged_error(&t, "id or user payload")),
        }
    } else if t == "ServerRoleUpdate".to_owned() {
        let id = match get_u64(o, &("id".to_owned())) {
            Some(x) => x,
            None => {
                return Err(tagged_error(&t, "id payload"));
            },
        };
        let role_id = match get_u64(o, &("role_id".to_owned())) {
            Some(x) => x,
            None => {
                return Err(tagged_error(&t, "role_id payload"));
            },
        };
        let data = match obj_get(o, &("data".to_owned())) {
            Some(WireValue::Obj(d)) => match partial_role_of(d) {
                Some(p) => p,
                None => {
                    return Err(tagged_error(&t, "data payload"));
                },
            },
            _ => {
                return Err(tagged_error(&t, "data payload"));
            },
        };
        let clear = match get_role_clears(o) {
            Some(c) => c,
            None => {
                return Err(tagged_error(&t, "clear payload"));
            },
        };
        Ok(
            ServerToClientEvent::ServerRoleUpdate {
                id: ServerId(id),
                role_id: RoleId(role_id),
                data,
                clear,
            },
        )
    } else if t == "ServerRoleDelete".to_owned() {
        match (get_u64(o, &("id".to_owned())), get_u64(o, &("role_id".to_owned()))) {
            (Some(id), Some(role_id)) => Ok(
                ServerToClientEvent::ServerRoleDelete {
                    id: ServerId(id),
                    role_id: RoleId(role_id),
                },
            ),
            _ => Err(tagged_error(&t, "id or role_id payload")),
        }
    } else if t == "UserUpdate".to_owned() {
        let id = match get_u64(o, &("id".to_owned())) {
            Some(x) => x,
            None => {
                return Err(tagged_error(&t, "id payload"));
            },
        };
        let data = match obj_get(o, &("data".to_owned())) {
            Some(WireValue::Obj(d)) => match partial_user_of(d) {
                Some(p) => p,
                None => {
                    return Err(tagged_error(&t, "data payload"));
                },
            },
            _ => {
                return Err(tagged_error(&t, "data payload"));
            },
        };
        let clear = match get_user_clears(o) {
            Some(c) => c,
            None => {
                return Err(tagged_error(&t, "clear payload"));
            },
        };
        Ok(ServerToClientEvent::UserUpdate { id: UserId(id), data, clear })
    } else if t == "UserRelationship".to_owned() {
        let id = match get_u64(o, &("id".to_owned())) {
            Some(x) => x,
            None => {
                return Err(tagged_error(&t, "id payload"));
            },
        };
        let user = match get_u64(o, &("user".to_owned())) {
            Some(x) => x,
            None => {
                return Err(tagged_error(&t, "user payload"));
            },
        };
        let status = match get_str(o, &("status".to_owned())) {
            Some(st) => match rel_of(&st) {
                Some(status) => status,
                None => {
                    return Err(tagged_error(&t, "status payload"));
                },
            },
            None => {
                return Err(tagged_error(&t, "status payload"));
            },
        };
        Ok(ServerToClientEvent::UserRelationship { id: UserId(id), user: UserId(user), status })
    } else {
        Err(tagged_error(&t, "unrecognized type discriminator"))
    }
}


/// Renders an inbound event as a wire message.  Decoding the result
/// yields the event that was encoded: the message is structurally
/// valid and matches exactly the encoded event.
#[verifier::rlimit(100)]
pub fn encode_server_event(e: &ServerToClientEvent) -> (r: WireValue)
    ensures
        spec_server_ok(r),
        server_event_matches(r, *e),
{
    proof {
        reveal_strlit("type");
        reveal_strlit("Error");
        reveal_strlit("Authenticated");
        reveal_strlit("Pong");
        reveal_strlit("Ready");
        reveal_strlit("Message");
        reveal_strlit("MessageUpdate");
        reveal_strlit("MessageDelete");
        reveal_strlit("ChannelCreate");
        reveal_strlit("ChannelUpdate");
        reveal_strlit("ChannelDelete");
        reveal_strlit("ChannelGroupJoin");
        reveal_strlit("ChannelGroupLeave");
        reveal_strlit("ChannelStartTyping");
        reveal_strlit("ChannelStopTyping");
        reveal_strlit("ChannelAck");
        reveal_strlit("ServerUpdate");
        reveal_strlit("ServerDelete");
        reveal_strlit("ServerMemberUpdate");
        reveal_strlit("ServerMemberJoin");
        reveal_strlit("ServerMemberLeave");
        reveal_strlit("ServerRoleUpdate");
        reveal_strlit("ServerRoleDelete");
        reveal_strlit("UserUpdate");
        reveal_strlit("UserRelationship");
        reveal_strlit("error");
        reveal_strlit("time");
        reveal_strlit("users");
        reveal_strlit("servers");
        reveal_strlit("channels");
        reveal_strlit("members");
        reveal_strlit("id");
        reveal_strlit("channel");
        reveal_strlit("author");
        reveal_strlit("content");
        reveal_strlit("name");
        reveal_strlit("server");
        reveal_strlit("description");
        reveal_strlit("data");
        reveal_strlit("clear");
        reveal_strlit("user");
        reveal_strlit("message_id");
        reveal_strlit("role_id");
        reveal_strlit("status");
        assert("Error"@.len() == 5);
        assert("Authenticated"@.len() == 13);
        assert("Pong"@.len() == 4);
        assert("Ready"@.len() == 5);
        assert("Message"@.len() == 7);
        assert("MessageUpdate"@.len() == 13);
        assert("MessageDelete"@.len() == 13);
        assert("ChannelCreate"@.len() == 13);
        assert("ChannelUpdate"@.len() == 13);
        assert("ChannelDelete"@.len() == 13);
        assert("ChannelGroupJoin"@.len() == 16);
        assert("ChannelGroupLeave"@.len() == 17);
        assert("ChannelStartTyping"@.len() == 18);
        assert("ChannelStopTyping"@.len() == 17);
        assert("ChannelAck"@.len() == 10);
        assert("ServerUpdate"@.len() == 12);
        assert("ServerDelete"@.len() == 12);
        assert("ServerMemberUpdate"@.len() == 18);
        assert("ServerMemberJoin"@.len() == 16);
        assert("ServerMemberLeave"@.len() == 17);
        assert("ServerRoleUpdate"@.len() == 16);
        assert("ServerRoleDelete"@.len() == 16);
        assert("UserUpdate"@.len() == 10);
        assert("UserRelationship"@.len() == 16);
        assert("Error"@[0] == 'E' && "Ready"@[0] == 'R');
        assert("Authenticated"@[0] == 'A');
        assert("MessageUpdate"@[0] == 'M' && "MessageDelete"@[0] == 'M');
        assert("ChannelCreate"@[0] == 'C' && "ChannelUpdate"@[0] == 'C' && "ChannelDelete"@[0]
            == 'C');
        assert("MessageUpdate"@[7] == 'U' && "MessageDelete"@[7] == 'D');
        assert("ChannelCreate"@[7] == 'C' && "ChannelUpdate"@[7] == 'U' && "ChannelDelete"@[7]
            == 'D');
        assert("ChannelGroupJoin"@[0] == 'C' && "ServerMemberJoin"@[0] == 'S'
            && "UserRelationship"@[0] == 'U');
        assert("ServerRoleUpdate"@[0] == 'S' && "ServerRoleDelete"@[0] == 'S');
        assert("ServerMemberJoin"@[6] == 'M' && "ServerRoleUpdate"@[6] == 'R'
            && "ServerRoleDelete"@[6] == 'R');
        assert("ServerRoleUpdate"@[10] == 'U' && "ServerRoleDelete"@[10] == 'D');
        assert("ChannelGroupLeave"@[0] == 'C' && "ChannelStopTyping"@[0] == 'C'
            && "ServerMemberLeave"@[0] == 'S');
        assert("ChannelGroupLeave"@[7] == 'G' && "ChannelStopTyping"@[7] == 'S');
        assert("ChannelStartTyping"@[0] == 'C' && "ServerMemberUpdate"@[0] == 'S');
        assert("ChannelAck"@[0] == 'C' && "UserUpdate"@[0] == 'U');
        assert("ServerUpdate"@[6] == 'U' && "ServerDelete"@[6] == 'D');
        assert("type"@.len() == 4);
        assert("error"@.len() == 5);
        assert("time"@.len() == 4);
        assert("users"@.len() == 5);
        assert("servers"@.len() == 7);
        assert("channels"@.len() == 8);
        assert("members"@.len() == 7);
        assert("id"@.len() == 2);
        assert("channel"@.len() == 7);
        assert("author"@.len() == 6);
        assert("content"@.len() == 7);
        assert("name"@.len() == 4);
        assert("server"@.len() == 6);
        assert("description"@.len() == 11);
        assert("data"@.len() == 4);
        assert("clear"@.len() == 5);
        assert("user"@.len() == 4);
        assert("message_id"@.len() == 10);
        assert("role_id"@.len() == 7);
        assert("status"@.len() == 6);
        assert("type"@[1] == 'y' && "time"@[1] == 'i');
        assert("servers"@[0] == 's' && "members"@[0] == 'm');
        assert("channel"@[1] == 'h' && "content"@[1] == 'o');
        assert("type"@[0] == 't' && "data"@[0] == 'd' && "name"@[0] == 'n' && "user"@[0] == 'u');
        assert("Pong"@[0] == 'P');
    }
    match e {
        ServerToClientEvent::Error { error } => {
            let mut o: Vec<(String, WireValue)> = Vec::new();
            o.push(("type".to_owned(), WireValue::Str("Error".to_owned())));
            o.push(("error".to_owned(), WireValue::Str(error.clone())));
            proof {
                lemma_obj_get2(o@, "type"@);
                lemma_obj_get2(o@, "error"@);
            }
            WireValue::Obj(o)
        },
        ServerToClientEvent::Authenticated => {
            let mut o: Vec<(String, WireValue)> = Vec::new();
            o.push(("type".to_owned(), WireValue::Str("Authenticated".to_owned())));
            proof {
                lemma_obj_get1(o@, "type"@);
            }
            WireValue::Obj(o)
        },
        ServerToClientEvent::Pong { time } => {
            let mut o: Vec<(String, WireValue)> = Vec::new();
            o.push(("type".to_owned(), WireValue::Str("Pong".to_owned())));
            o.push(("time".to_owned(), WireValue::UInt(*time as u64)));
            proof {
                lemma_obj_get2(o@, "type"@);
                lemma_obj_get2(o@, "time"@);
            }
            WireValue::Obj(o)
        },
        ServerToClientEvent::Ready { event } => {
            let mut o: Vec<(String, WireValue)> = Vec::new();
            o.push(("type".to_owned(), WireValue::Str("Ready".to_owned())));
            o.push(("users".to_owned(), WireValue::Arr(enc_list(&event.users))));
            o.push(("servers".to_owned(), WireValue::Arr(enc_list(&event.servers))));
            o.push(("channels".to_owned(), WireValue::Arr(enc_list(&event.channels))));
            o.push(("members".to_owned(), WireValue::Arr(enc_list(&event.members))));
            proof {
                lemma_obj_get5(o@, "type"@);
                lemma_obj_get5(o@, "users"@);
                lemma_obj_get5(o@, "servers"@);
                lemma_obj_get5(o@, "channels"@);
                lemma_obj_get5(o@, "members"@);
            }
            WireValue::Obj(o)
        },
        ServerToClientEvent::Message { message } => {
            let mut o: Vec<(String, WireValue)> = Vec::new();
            o.push(("type".to_owned(), WireValue::Str("Message".to_owned())));
            o.push(("id".to_owned(), WireValue::UInt(message.id.0)));
            o.push(("channel".to_owned(), WireValue::UInt(message.channel.0)));
            o.push(("author".to_owned(), WireValue::UInt(message.author.0)));
            o.push(("content".to_owned(), WireValue::Str(message.content.clone())));
            proof {
                lemma_obj_get5(o@, "type"@);
                lemma_obj_get5(o@, "id"@);
                lemma_obj_get5(o@, "channel"@);
                lemma_obj_get5(o@, "author"@);
                lemma_obj_get5(o@, "content"@);
            }
            WireValue::Obj(o)
        },
        ServerToClientEvent::MessageUpdate { id, channel, data } => {
            let mut o: Vec<(String, WireValue)> = Vec::new();
            o.push(("type".to_owned(), WireValue::Str("MessageUpdate".to_owned())));
            o.push(("id".to_owned(), WireValue::UInt(id.0)));
            o.push(("channel".to_owned(), WireValue::UInt(channel.0)));
            o.push(("data".to_owned(), WireValue::Obj(partial_message_fields(data))));
            proof {
                lemma_obj_get4(o@, "type"@);
                lemma_obj_get4(o@, "id"@);
                lemma_obj_get4(o@, "channel"@);
                lemma_obj_get4(o@, "data"@);
            }
            WireValue::Obj(o)
        },
        ServerToClientEvent::MessageDelete { id, channel } => {
            let mut o: Vec<(String, WireValue)> = Vec::new();
            o.push(("type".to_owned(), WireValue::Str("MessageDelete".to_owned())));
            o.push(("id".to_owned(), WireValue::UInt(id.0)));
            o.push(("channel".to_owned(), WireValue::UInt(channel.0)));
            proof {
                lemma_obj_get3(o@, "type"@);
                lemma_obj_get3(o@, "id"@);
                lemma_obj_get3(o@, "channel"@);
            }
            WireValue::Obj(o)
        },
        ServerToClientEvent::ChannelCreate { channel } => {
            let mut o: Vec<(String, WireValue)> = Vec::new();
            o.push(("type".to_owned(), WireValue::Str("ChannelCreate".to_owned())));
            o.push(("id".to_owned(), WireValue::UInt(channel.id.0)));
            o.push(("name".to_owned(), WireValue::Str(channel.name.clone())));
            match channel.server {
                Some(sid) => o.push(("server".to_owned(), WireValue::UInt(sid.0))),
                None => o.push(("server".to_owned(), WireValue::Null)),
            }
            o.push(("description".to_owned(), opt_str_wire(&channel.description)));
            proof {
                lemma_obj_get5(o@, "type"@);
                lemma_obj_get5(o@, "id"@);
                lemma_obj_get5(o@, "name"@);
                lemma_obj_get5(o@, "server"@);
                lemma_obj_get5(o@, "description"@);
            }
            WireValue::Obj(o)
        },
        ServerToClientEvent::ChannelUpdate { id, data, clear } => {
            let mut o: Vec<(String, WireValue)> = Vec::new();
            o.push(("type".to_owned(), WireValue::Str("ChannelUpdate".to_owned())));
            o.push(("id".to_owned(), WireValue::UInt(id.0)));
            o.push(("data".to_owned(), WireValue::Obj(partial_channel_fields(data))));
            o.push(("clear".to_owned(), channel_clear_wire(clear)));
            proof {
                lemma_obj_get4(o@, "type"@);
                lemma_obj_get4(o@, "id"@);
                lemma_obj_get4(o@, "data"@);
                lemma_obj_get4(o@, "clear"@);
            }
            WireValue::Obj(o)
        },
        ServerToClientEvent::ChannelDelete { id } => {
            let mut o: Vec<(String, WireValue)> = Vec::new();
            o.push(("type".to_owned(), WireValue::Str("ChannelDelete".to_owned())));
            o.push(("id".to_owned(), WireValue::UInt(id.0)));
            proof {
                lemma_obj_get2(o@, "type"@);
                lemma_obj_get2(o@, "id"@);
            }
            WireValue::Obj(o)
        },
        ServerToClientEvent::ChannelGroupJoin { id, user } => {
            let mut o: Vec<(String, WireValue)> = Vec::new();
            o.push(("type".to_owned(), WireValue::Str("ChannelGroupJoin".to_owned())));
            o.push(("id".to_owned(), WireValue::UInt(id.0)));
            o.push(("user".to_owned(), WireValue::UInt(user.0)));
            proof {
                lemma_obj_get3(o@, "type"@);
                lemma_obj_get3(o@, "id"@);
                lemma_obj_get3(o@, "user"@);
            }
            WireValue::Obj(o)
        },
        ServerToClientEvent::ChannelGroupLeave { id, user } => {
            let mut o: Vec<(String, WireValue)> = Vec::new();
            o.push(("type".to_owned(), WireValue::Str("ChannelGroupLeave".to_owned())));
            o.push(("id".to_owned(), WireValue::UInt(id.0)));
            o.push(("user".to_owned(), WireValue::UInt(user.0)));
            proof {
                lemma_obj_get3(o@, "type"@);
                lemma_obj_get3(o@, "id"@);
                lemma_obj_get3(o@, "user"@);
            }
            WireValue::Obj(o)
        },
        ServerToClientEvent::ChannelStartTyping { id, user } => {
            let mut o: Vec<(String, WireValue)> = Vec::new();
            o.push(("type".to_owned(), WireValue::Str("ChannelStartTyping".to_owned())));
            o.push(("id".to_owned(), WireValue::UInt(id.0)));
            o.push(("user".to_owned(), WireValue::UInt(user.0)));
            proof {
                lemma_obj_get3(o@, "type"@);
                lemma_obj_get3(o@, "id"@);
                lemma_obj_get3(o@, "user"@);
            }
            WireValue::Obj(o)
        },
        ServerToClientEvent::ChannelStopTyping { id, user } => {
            let mut o: Vec<(String, WireValue)> = Vec::new();
            o.push(("type".to_owned(), WireValue::Str("ChannelStopTyping".to_owned())));
            o.push(("id".to_owned(), WireValue::UInt(id.0)));
            o.push(("user".to_owned(), WireValue::UInt(user.0)));
            proof {
                lemma_obj_get3(o@, "type"@);
                lemma_obj_get3(o@, "id"@);
                lemma_obj_get3(o@, "user"@);
            }
            WireValue::Obj(o)
        },
        ServerToClientEvent::ChannelAck { id, user, message_id } => {
            let mut o: Vec<(String, WireValue)> = Vec::new();
            o.push(("type".to_owned(), WireValue::Str("ChannelAck".to_owned())));
            o.push(("id".to_owned(), WireValue::UInt(id.0)));
            o.push(("user".to_owned(), WireValue::UInt(user.0)));
            o.push(("message_id".to_owned(), WireValue::UInt(message_id.0)));
            proof {
                lemma_obj_get4(o@, "type"@);
                lemma_obj_get4(o@, "id"@);
                lemma_obj_get4(o@, "user"@);
                lemma_obj_get4(o@, "message_id"@);
            }
            WireValue::Obj(o)
        },
        ServerToClientEvent::ServerUpdate { id, data, clear } => {
            let mut o: Vec<(String, WireValue)> = Vec::new();
            o.push(("type".to_owned(), WireValue::Str("ServerUpdate".to_owned())));
            o.push(("id".to_owned(), WireValue::UInt(id.0)));
            o.push(("data".to_owned(), WireValue::Obj(partial_server_fields(data))));
            o.push(("clear".to_owned(), server_clear_wire(clear)));
            proof {
                lemma_obj_get4(o@, "type"@);
                lemma_obj_get4(o@, "id"@);
                lemma_obj_get4(o@, "data"@);
                lemma_obj_get4(o@, "clear"@);
            }
            WireValue::Obj(o)
        },
        ServerToClientEvent::ServerDelete { id } => {
            let mut o: Vec<(String, WireValue)> = Vec::new();
            o.push(("type".to_owned(), WireValue::Str("ServerDelete".to_owned())));
            o.push(("id".to_owned(), WireValue::UInt(id.0)));
            proof {
                lemma_obj_get2(o@, "type"@);
                lemma_obj_get2(o@, "id"@);
            }
            WireValue::Obj(o)
        },
        ServerToClientEvent::ServerMemberUpdate { id, data, clear } => {
            let mut o: Vec<(String, WireValue)> = Vec::new();
            o.push(("type".to_owned(), WireValue::Str("ServerMemberUpdate".to_owned())));
            o.push(("id".to_owned(), WireValue::UInt(id.0)));
            o.push(("data".to_owned(), WireValue::Obj(partial_member_fields(data))));
            o.push(("clear".to_owned(), member_clear_wire(clear)));
            proof {
                lemma_obj_get4(o@, "type"@);
                lemma_obj_get4(o@, "id"@);
                lemma_obj_get4(o@, "data"@);
                lemma_obj_get4(o@, "clear"@);
            }
            WireValue::Obj(o)
        },
        ServerToClientEvent::ServerMemberJoin { id, user } => {
            let mut o: Vec<(String, WireValue)> = Vec::new();
            o.push(("type".to_owned(), WireValue::Str("ServerMemberJoin".to_owned())));
            o.push(("id".to_owned(), WireValue::UInt(id.0)));
            o.push(("user".to_owned(), WireValue::UInt(user.0)));
            proof {
                lemma_obj_get3(o@, "type"@);
                lemma_obj_get3(o@, "id"@);
                lemma_obj_get3(o@, "user"@);
            }
            WireValue::Obj(o)
        },
        ServerToClientEvent::ServerMemberLeave { id, user } => {
            let mut o: Vec<(String, WireValue)> = Vec::new();
            o.push(("type".to_owned(), WireValue::Str("ServerMemberLeave".to_owned())));
            o.push(("id".to_owned(), WireValue::UInt(id.0)));
            o.push(("user".to_owned(), WireValue::UInt(user.0)));
            proof {
                lemma_obj_get3(o@, "type"@);
                lemma_obj_get3(o@, "id"@);
                lemma_obj_get3(o@, "user"@);
            }
            WireValue::Obj(o)
        },
        ServerToClientEvent::ServerRoleUpdate { id, role_id, data, clear } => {
            let mut o: Vec<(String, WireValue)> = Vec::new();
            o.push(("type".to_owned(), WireValue::Str("ServerRoleUpdate".to_owned())));
            o.push(("id".to_owned(), WireValue::UInt(id.0)));
            o.push(("role_id".to_owned(), WireValue::UInt(role_id.0)));
            o.push(("data".to_owned(), WireValue::Obj(partial_role_fields(data))));
            o.push(("clear".to_owned(), role_clear_wire(clear)));
            proof {
                lemma_obj_get5(o@, "type"@);
                lemma_obj_get5(o@, "id"@);
                lemma_obj_get5(o@, "role_id"@);
                lemma_obj_get5(o@, "data"@);
                lemma_obj_get5(o@, "clear"@);
            }
            WireValue::Obj(o)
        },
        ServerToClientEvent::ServerRoleDelete { id, role_id } => {
            let mut o: Vec<(String, WireValue)> = Vec::new();
            o.push(("type".to_owned(), WireValue::Str("ServerRoleDelete".to_owned())));
            o.push(("id".to_owned(), WireValue::UInt(id.0)));
            o.push(("role_id".to_owned(), WireValue::UInt(role_id.0)));
            proof {
                lemma_obj_get3(o@, "type"@);
                lemma_obj_get3(o@, "id"@);
                lemma_obj_get3(o@, "role_id"@);
            }
            WireValue::Obj(o)
        },
        ServerToClientEvent::UserUpdate { id, data, clear } => {
            let mut o: Vec<(String, WireValue)> = Vec::new();
            o.push(("type".to_owned(), WireValue::Str("UserUpdate".to_owned())));
            o.push(("id".to_owned(), WireValue::UInt(id.0)));
            o.push(("data".to_owned(), WireValue::Obj(partial_user_fields(data))));
            o.push(("clear".to_owned(), user_clear_wire(clear)));
            proof {
                lemma_obj_get4(o@, "type"@);
                lemma_obj_get4(o@, "id"@);
                lemma_obj_get4(o@, "data"@);
                lemma_obj_get4(o@, "clear"@);
            }
            WireValue::Obj(o)
        },
        ServerToClientEvent::UserRelationship { id, user, status } => {
            let mut o: Vec<(String, WireValue)> = Vec::new();
            o.push(("type".to_owned(), WireValue::Str("UserRelationship".to_owned())));
            o.push(("id".to_owned(), WireValue::UInt(id.0)));
            o.push(("user".to_owned(), WireValue::UInt(user.0)));
            o.push(("status".to_owned(), WireValue::Str(rel_tag_string(*status))));
            proof {
                lemma_obj_get4(o@, "type"@);
                lemma_obj_get4(o@, "id"@);
                lemma_obj_get4(o@, "user"@);
                lemma_obj_get4(o@, "status"@);
            }
            WireValue::Obj(o)
        },
    }
}


/// Whether a wire message is a structurally valid outbound event.
/// Both authentication shapes travel under the one `Authenticate`
/// discriminator; the session shape is recognized first.
pub open spec fn spec_client_ok(v: WireValue) -> bool {
    v matches WireValue::Obj(o) && {
        let oo = o@;
        spec_get_str(oo, "type"@) matches Some(t) && {
            if t@ == "Authenticate"@ {
                ||| spec_get_u64(oo, "user_id"@) is Some && spec_get_str(oo, "session_token"@)
                    is Some
                ||| spec_get_str(oo, "token"@) is Some
            } else if t@ == "BeginTyping"@ {
                spec_get_u64(oo, "channel"@) is Some
            } else if t@ == "EndTyping"@ {
                spec_get_u64(oo, "channel"@) is Some
            } else if t@ == "Ping"@ {
                spec_get_u32(oo, "time"@) is Some && spec_get_u8(oo, "data"@) is Some
            } else {
                false
            }
        }
    }
}

/// How one outbound event relates to the wire message it was read
/// from.
pub open spec fn client_event_matches(v: WireValue, ev: ClientToServerEvent) -> bool {
    v matches WireValue::Obj(o) && {
        let oo = o@;
        match ev {
            ClientToServerEvent::Authenticate { user_id, session_token } => {
                &&& spec_tag_view(v) == "Authenticate"@
                &&& spec_get_u64(oo, "user_id"@) == Some(user_id.0)
                &&& spec_get_str(oo, "session_token"@) == Some(session_token)
            },
            ClientToServerEvent::AuthenticateBot { token } => {
                &&& spec_tag_view(v) == "Authenticate"@
                &&& !(spec_get_u64(oo, "user_id"@) is Some && spec_get_str(oo, "session_token"@)
                    is Some)
                &&& spec_get_str(oo, "token"@) == Some(token)
            },
            ClientToServerEvent::BeginTyping { channel } => {
                &&& spec_tag_view(v) == "BeginTyping"@
                &&& spec_get_u64(oo, "channel"@) == Some(channel.0)
            },
            ClientToServerEvent::EndTyping { channel } => {
                &&& spec_tag_view(v) == "EndTyping"@
                &&& spec_get_u64(oo, "channel"@) == Some(channel.0)
            },
            ClientToServerEvent::Ping { time, data } => {
                &&& spec_tag_view(v) == "Ping"@
                &&& spec_get_u32(oo, "time"@) == Some(time)
                &&& spec_get_u8(oo, "data"@) == Some(data)
            },
        }
    }
}

/// Decodes an outbound wire message, exactly as a server would: the
/// result matches the message, and decoding fails precisely on
/// messages that are not structurally valid.
pub fn decode_client_event(v: &WireValue) -> (r: Result<ClientToServerEvent, ProtocolDecodeError>)
    ensures
        r matches Ok(ev) ==> spec_client_ok(*v) && client_event_matches(*v, ev),
        r is Err <==> !spec_client_ok(*v),
        r matches Err(e) ==> e.tag@ == spec_tag_view(*v),
{
    let o = match v {
        WireValue::Obj(o) => o,
        _ => {
            return Err(untagged_error("message is not an object"));
        },
    };
    let t = match get_str(o, &("type".to_owned())) {
        Some(t) => t,
        None => {
            return Err(untagged_error("missing type discriminator"));
        },
    };
    if t == "Authenticate".to_owned() {
        match (get_u64(o, &("user_id".to_owned())), get_str(o, &("session_token".to_owned()))) {
            (Some(user_id), Some(session_token)) => Ok(
                ClientToServerEvent::Authenticate { user_id: UserId(user_id), session_token },
            ),
            _ => match get_str(o, &("token".to_owned())) {
                Some(token) => Ok(ClientToServerEvent::AuthenticateBot { token }),
                None => Err(tagged_error(&t, "authentication payload")),
            },
        }
    } else if t == "BeginTyping".to_owned() {
        match get_u64(o, &("channel".to_owned())) {
            Some(channel) => Ok(ClientToServerEvent::BeginTyping { channel: ChannelId(channel) }),
            None => Err(tagged_error(&t, "channel payload")),
        }
    } else if t == "EndTyping".to_owned() {
        match get_u64(o, &("channel".to_owned())) {
            Some(channel) => Ok(ClientToServerEvent::EndTyping { channel: ChannelId(channel) }),
            None => Err(tagged_error(&t, "channel payload")),
        }
    } else if t == "Ping".to_owned() {
        match (get_u32(o, &("time".to_owned())), get_u8(o, &("data".to_owned()))) {
            (Some(time), Some(data)) => Ok(ClientToServerEvent::Ping { time, data }),
            _ => Err(tagged_error(&t, "time or data payload")),
        }
    } else {
        Err(tagged_error(&t, "unrecognized type discriminator"))
    }
}

/// Renders an outbound event as a wire message.  Decoding the result
/// yields the event that was encoded.
pub fn encode_client_event(e: &ClientToServerEvent) -> (r: WireValue)
    ensures
        spec_client_ok(r),
        client_event_matches(r, *e),
{
    proof {
        reveal_strlit("type");
        reveal_strlit("Authenticate");
        reveal_strlit("BeginTyping");
        reveal_strlit("EndTyping");
        reveal_strlit("Ping");
        reveal_strlit("user_id");
        reveal_strlit("session_token");
        reveal_strlit("token");
        reveal_strlit("channel");
        reveal_strlit("time");
        reveal_strlit("data");
        assert("Authenticate"@.len() == 12);
        assert("BeginTyping"@.len() == 11);
        assert("EndTyping"@.len() == 9);
        assert("Ping"@.len() == 4);
        assert("type"@.len() == 4);
        assert("user_id"@.len() == 7);
        assert("session_token"@.len() == 13);
        assert("token"@.len() == 5);
        assert("channel"@.len() == 7);
        assert("time"@.len() == 4);
        assert("data"@.len() == 4);
        assert("type"@[1] == 'y' && "time"@[1] == 'i');
        assert("type"@[0] == 't' && "data"@[0] == 'd');
        assert("Ping"@[0] == 'P');
    }
    match e {
        ClientToServerEvent::Authenticate { user_id, session_token } => {
            let mut o: Vec<(String, WireValue)> = Vec::new();
            o.push(("type".to_owned(), WireValue::Str("Authenticate".to_owned())));
            o.push(("user_id".to_owned(), WireValue::UInt(user_id.0)));
            o.push(("session_token".to_owned(), WireValue::Str(session_token.clone())));
            proof {
                lemma_obj_get3(o@, "type"@);
                lemma_obj_get3(o@, "user_id"@);
                lemma_obj_get3(o@, "session_token"@);
            }
            WireValue::Obj(o)
        },
        ClientToServerEvent::AuthenticateBot { token } => {
            let mut o: Vec<(String, WireValue)> = Vec::new();
            o.push(("type".to_owned(), WireValue::Str("Authenticate".to_owned())));
            o.push(("token".to_owned(), WireValue::Str(token.clone())));
            proof {
                lemma_obj_get2(o@, "type"@);
                lemma_obj_get2(o@, "token"@);
                lemma_obj_get2(o@, "user_id"@);
                lemma_obj_get2(o@, "session_token"@);
            }
            WireValue::Obj(o)
        },
        ClientToServerEvent::BeginTyping { channel } => {
            let mut o: Vec<(String, WireValue)> = Vec::new();
            o.push(("type".to_owned(), WireValue::Str("BeginTyping".to_owned())));
            o.push(("channel".to_owned(), WireValue::UInt(channel.0)));
            proof {
                lemma_obj_get2(o@, "type"@);
                lemma_obj_get2(o@, "channel"@);
            }
            WireValue::Obj(o)
        },
        ClientToServerEvent::EndTyping { channel } => {
            let mut o: Vec<(String, WireValue)> = Vec::new();
            o.push(("type".to_owned(), WireValue::Str("EndTyping".to_owned())));
            o.push(("channel".to_owned(), WireValue::UInt(channel.0)));
            proof {
                lemma_obj_get2(o@, "type"@);
                lemma_obj_get2(o@, "channel"@);
            }
            WireValue::Obj(o)
        },
        ClientToServerEvent::Ping { time, data } => {
            let mut o: Vec<(String, WireValue)> = Vec::new();
            o.push(("type".to_owned(), WireValue::Str("Ping".to_owned())));
            o.push(("time".to_owned(), WireValue::UInt(*time as u64)));
            o.push(("data".to_owned(), WireValue::UInt(*data as u64)));
            proof {
                lemma_obj_get3(o@, "type"@);
                lemma_obj_get3(o@, "time"@);
                lemma_obj_get3(o@, "data"@);
            }
            WireValue::Obj(o)
        },
    }
}


/// Whether two inbound events carry the same content; the bulk
/// snapshot lists are compared by their contents.
pub open spec fn server_events_agree(a: ServerToClientEvent, b: ServerToClientEvent) -> bool {
    match (a, b) {
        (
            ServerToClientEvent::Ready { event: ea },
            ServerToClientEvent::Ready { event: eb },
        ) => ea.users@ == eb.users@ && ea.servers@ == eb.servers@ && ea.channels@ == eb.channels@
            && ea.members@ == eb.members@,
        _ => a == b,
    }
}

/// Law: one wire message reads as at most one inbound event, so
/// encoding an event and decoding the result yields that event back
/// (`encode_server_event` guarantees the message matches the event,
/// and `decode_server_event` returns an event the message matches).
#[verifier::rlimit(100)]
pub proof fn lemma_server_match_functional(
    v: WireValue,
    e1: ServerToClientEvent,
    e2: ServerToClientEvent,
)
    requires
        server_event_matches(v, e1),
        server_event_matches(v, e2),
    ensures
        server_events_agree(e1, e2),
{
    reveal_strlit("Error");
    reveal_strlit("Authenticated");
    reveal_strlit("Pong");
    reveal_strlit("Ready");
    reveal_strlit("Message");
    reveal_strlit("MessageUpdate");
    reveal_strlit("MessageDelete");
    reveal_strlit("ChannelCreate");
    reveal_strlit("ChannelUpdate");
    reveal_strlit("ChannelDelete");
    reveal_strlit("ChannelGroupJoin");
    reveal_strlit("ChannelGroupLeave");
    reveal_strlit("ChannelStartTyping");
    reveal_strlit("ChannelStopTyping");
    reveal_strlit("ChannelAck");
    reveal_strlit("ServerUpdate");
    reveal_strlit("ServerDelete");
    reveal_strlit("ServerMemberUpdate");
    reveal_strlit("ServerMemberJoin");
    reveal_strlit("ServerMemberLeave");
    reveal_strlit("ServerRoleUpdate");
    reveal_strlit("ServerRoleDelete");
    reveal_strlit("UserUpdate");
    reveal_strlit("UserRelationship");
    assert("Error"@.len() == 5);
    assert("Authenticated"@.len() == 13);
    assert("Pong"@.len() == 4);
    assert("Ready"@.len() == 5);
    assert("Message"@.len() == 7);
    assert("MessageUpdate"@.len() == 13);
    assert("MessageDelete"@.len() == 13);
    assert("ChannelCreate"@.len() == 13);
    assert("ChannelUpdate"@.len() == 13);
    assert("ChannelDelete"@.len() == 13);
    assert("ChannelGroupJoin"@.len() == 16);
    assert("ChannelGroupLeave"@.len() == 17);
    assert("ChannelStartTyping"@.len() == 18);
    assert("ChannelStopTyping"@.len() == 17);
    assert("ChannelAck"@.len() == 10);
    assert("ServerUpdate"@.len() == 12);
    assert("ServerDelete"@.len() == 12);
    assert("ServerMemberUpdate"@.len() == 18);
    assert("ServerMemberJoin"@.len() == 16);
    assert("ServerMemberLeave"@.len() == 17);
    assert("ServerRoleUpdate"@.len() == 16);
    assert("ServerRoleDelete"@.len() == 16);
    assert("UserUpdate"@.len() == 10);
    assert("UserRelationship"@.len() == 16);
    assert("Error"@[0] == 'E' && "Ready"@[0] == 'R');
    assert("Authenticated"@[0] == 'A');
    assert("MessageUpdate"@[0] == 'M' && "MessageDelete"@[0] == 'M');
    assert("ChannelCreate"@[0] == 'C' && "ChannelUpdate"@[0] == 'C' && "ChannelDelete"@[0] == 'C');
    assert("MessageUpdate"@[7] == 'U' && "MessageDelete"@[7] == 'D');
    assert("ChannelCreate"@[7] == 'C' && "ChannelUpdate"@[7] == 'U' && "ChannelDelete"@[7] == 'D');
    assert("ChannelGroupJoin"@[0] == 'C' && "ServerMemberJoin"@[0] == 'S' && "UserRelationship"@[0]
        == 'U');
    assert("ServerRoleUpdate"@[0] == 'S' && "ServerRoleDelete"@[0] == 'S');
    assert("ServerMemberJoin"@[6] == 'M' && "ServerRoleUpdate"@[6] == 'R' && "ServerRoleDelete"@[6]
        == 'R');
    assert("ServerRoleUpdate"@[10] == 'U' && "ServerRoleDelete"@[10] == 'D');
    assert("ChannelGroupLeave"@[0] == 'C' && "ChannelStopTyping"@[0] == 'C'
        && "ServerMemberLeave"@[0] == 'S');
    assert("ChannelGroupLeave"@[7] == 'G' && "ChannelStopTyping"@[7] == 'S');
    assert("ChannelStartTyping"@[0] == 'C' && "ServerMemberUpdate"@[0] == 'S');
    assert("ChannelAck"@[0] == 'C' && "UserUpdate"@[0] == 'U');
    assert("ServerUpdate"@[6] == 'U' && "ServerDelete"@[6] == 'D');
}

/// Law: one wire message reads as at most one outbound event, so
/// encoding an outbound event and decoding the result yields that
/// event back.
pub proof fn lemma_client_match_functional(
    v: WireValue,
    e1: ClientToServerEvent,
    e2: ClientToServerEvent,
)
    requires
        client_event_matches(v, e1),
        client_event_matches(v, e2),
    ensures
        e1 == e2,
{
    reveal_strlit("Authenticate");
    reveal_strlit("BeginTyping");
    reveal_strlit("EndTyping");
    reveal_strlit("Ping");
    assert("Authenticate"@.len() == 12);
    assert("BeginTyping"@.len() == 11);
    assert("EndTyping"@.len() == 9);
    assert("Ping"@.len() == 4);
}

} // verus!
