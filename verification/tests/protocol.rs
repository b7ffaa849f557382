use robespierre::apply::apply_server_event;
use robespierre::entity::{
    Channel, ChannelClears, Member, Message, PartialChannel, PartialMessage, PartialUser,
    RelationshipStatus, Server, User, UserClears,
};
use robespierre::events::{
    decode_client_event, decode_server_event, encode_client_event, encode_server_event,
    ClientToServerEvent, ReadyEvent, ServerToClientEvent,
};
use robespierre::id::{ChannelId, MemberId, MessageId, ServerId, UserId};
use robespierre::model::ClientState;
use robespierre::wire::WireValue;

fn pair(k: &str, v: WireValue) -> (String, WireValue) {
    (k.to_string(), v)
}

fn alice() -> User {
    User {
        id: UserId(3),
        username: "alice".to_string(),
        nickname: Some("Ali".to_string()),
        status: None,
    }
}

#[test]
fn unknown_discriminator_is_a_protocol_decode_error() {
    let v = WireValue::Obj(vec![pair("type", WireValue::Str("Bogus".to_string()))]);
    let e = decode_server_event(&v).unwrap_err();
    assert_eq!(e.tag, "Bogus".to_string());
}

#[test]
fn a_message_that_is_not_an_object_fails_to_decode() {
    let e = decode_server_event(&WireValue::UInt(3)).unwrap_err();
    assert_eq!(e.tag, String::new());
}

#[test]
fn unknown_extra_keys_are_ignored() {
    let v = WireValue::Obj(vec![
        pair("type", WireValue::Str("Pong".to_string())),
        pair("glue", WireValue::Str("ignored".to_string())),
        pair("time", WireValue::UInt(7)),
    ]);
    let ev = decode_server_event(&v).unwrap();
    assert_eq!(ev, ServerToClientEvent::Pong { time: 7 });
}

#[test]
fn an_omitted_clear_field_means_no_explicit_clears() {
    let v = WireValue::Obj(vec![
        pair("type", WireValue::Str("UserUpdate".to_string())),
        pair("id", WireValue::UInt(3)),
        pair("data", WireValue::Obj(vec![pair("status", WireValue::Str("idle".to_string()))])),
    ]);
    let ev = decode_server_event(&v).unwrap();
    assert_eq!(
        ev,
        ServerToClientEvent::UserUpdate {
            id: UserId(3),
            data: PartialUser {
                username: None,
                nickname: None,
                status: Some("idle".to_string()),
            },
            clear: None,
        }
    );
}

#[test]
fn a_clear_list_folds_to_the_clear_set() {
    let v = WireValue::Obj(vec![
        pair("type", WireValue::Str("UserUpdate".to_string())),
        pair("id", WireValue::UInt(3)),
        pair("data", WireValue::Obj(vec![])),
        pair("clear", WireValue::Arr(vec![WireValue::Str("Nickname".to_string())])),
    ]);
    let ev = decode_server_event(&v).unwrap();
    assert_eq!(
        ev,
        ServerToClientEvent::UserUpdate {
            id: UserId(3),
            data: PartialUser { username: None, nickname: None, status: None },
            clear: Some(UserClears { nickname: true, status: false }),
        }
    );
}

#[test]
fn an_unknown_clear_tag_is_a_structural_mismatch() {
    let v = WireValue::Obj(vec![
        pair("type", WireValue::Str("UserUpdate".to_string())),
        pair("id", WireValue::UInt(3)),
        pair("data", WireValue::Obj(vec![])),
        pair("clear", WireValue::Arr(vec![WireValue::Str("Banner".to_string())])),
    ]);
    let e = decode_server_event(&v).unwrap_err();
    assert_eq!(e.tag, "UserUpdate".to_string());
}

#[test]
fn a_pong_time_that_does_not_fit_is_a_mismatch() {
    let v = WireValue::Obj(vec![
        pair("type", WireValue::Str("Pong".to_string())),
        pair("time", WireValue::UInt(1 << 40)),
    ]);
    assert!(decode_server_event(&v).is_err());
}

#[test]
fn server_events_round_trip() {
    let events = vec![
        ServerToClientEvent::Error { error: "bad".to_string() },
        ServerToClientEvent::Authenticated,
        ServerToClientEvent::Pong { time: 42 },
        ServerToClientEvent::Message {
            message: Message {
                id: MessageId(10),
                channel: ChannelId(1),
                author: UserId(3),
                content: "hi".to_string(),
            },
        },
        ServerToClientEvent::MessageUpdate {
            id: MessageId(10),
            channel: ChannelId(1),
            data: PartialMessage { content: Some("edited".to_string()) },
        },
        ServerToClientEvent::MessageDelete { id: MessageId(10), channel: ChannelId(1) },
        ServerToClientEvent::ChannelCreate {
            channel: Channel {
                id: ChannelId(1),
                name: "general".to_string(),
                server: Some(ServerId(7)),
                description: Some("hello".to_string()),
            },
        },
        ServerToClientEvent::ChannelUpdate {
            id: ChannelId(1),
            data: PartialChannel {
                name: Some("renamed".to_string()),
                server: None,
                description: None,
            },
            clear: Some(ChannelClears { server: false, description: true }),
        },
        ServerToClientEvent::ChannelDelete { id: ChannelId(1) },
        ServerToClientEvent::ChannelGroupJoin { id: ChannelId(1), user: UserId(3) },
        ServerToClientEvent::ChannelGroupLeave { id: ChannelId(1), user: UserId(3) },
        ServerToClientEvent::ChannelStartTyping { id: ChannelId(1), user: UserId(3) },
        ServerToClientEvent::ChannelStopTyping { id: ChannelId(1), user: UserId(3) },
        ServerToClientEvent::ChannelAck {
            id: ChannelId(1),
            user: UserId(3),
            message_id: MessageId(10),
        },
        ServerToClientEvent::ServerDelete { id: ServerId(7) },
        ServerToClientEvent::ServerMemberJoin { id: ServerId(7), user: UserId(3) },
        ServerToClientEvent::ServerMemberLeave { id: ServerId(7), user: UserId(3) },
        ServerToClientEvent::UserRelationship {
            id: UserId(2),
            user: UserId(3),
            status: RelationshipStatus::Friend,
        },
    ];
    for ev in events {
        let wire = encode_server_event(&ev);
        assert_eq!(decode_server_event(&wire), Ok(ev));
    }
}

#[test]
fn the_ready_snapshot_round_trips() {
    let ev = ServerToClientEvent::Ready {
        event: ReadyEvent {
            users: vec![alice()],
            servers: vec![Server {
                id: ServerId(7),
                name: "hq".to_string(),
                description: None,
                icon: None,
            }],
            channels: vec![Channel {
                id: ChannelId(1),
                name: "general".to_string(),
                server: Some(ServerId(7)),
                description: None,
            }],
            members: vec![Member { id: MemberId(11), nickname: None, avatar: None }],
        },
    };
    let wire = encode_server_event(&ev);
    assert_eq!(decode_server_event(&wire), Ok(ev));
}

#[test]
fn client_events_round_trip() {
    let events = vec![
        ClientToServerEvent::Authenticate {
            user_id: UserId(3),
            session_token: "SECRET-REDACTED".to_string(),
        },
        ClientToServerEvent::AuthenticateBot { token: "SECRET-REDACTED".to_string() },
        ClientToServerEvent::BeginTyping { channel: ChannelId(1) },
        ClientToServerEvent::EndTyping { channel: ChannelId(1) },
        ClientToServerEvent::Ping { time: 77, data: 1 },
    ];
    for ev in events {
        let wire = encode_client_event(&ev);
        assert_eq!(decode_client_event(&wire), Ok(ev));
    }
}

#[test]
fn decoding_a_user_update_clears_through_the_cache() {
    let mut state = ClientState::with_cache();
    state.users.commit(alice());

    // nickname patched and cleared at once: the clear wins
    let v = WireValue::Obj(vec![
        pair("type", WireValue::Str("UserUpdate".to_string())),
        pair("id", WireValue::UInt(3)),
        pair(
            "data",
            WireValue::Obj(vec![pair("nickname", WireValue::Str("Alicia".to_string()))]),
        ),
        pair("clear", WireValue::Arr(vec![WireValue::Str("Nickname".to_string())])),
    ]);
    let ev = decode_server_event(&v).unwrap();
    apply_server_event(&mut state, &ev).unwrap();

    let after = state.users.get(3).unwrap();
    assert_eq!(after.nickname, None);
    assert_eq!(after.username, "alice".to_string());
}

#[test]
fn an_update_for_a_never_seen_id_is_an_orphan_patch() {
    let mut state = ClientState::with_cache();
    let ev = ServerToClientEvent::UserUpdate {
        id: UserId(9),
        data: PartialUser { username: None, nickname: None, status: None },
        clear: None,
    };
    assert!(apply_server_event(&mut state, &ev).is_err());
    assert_eq!(state.users.get(9), None);
}

#[test]
fn delete_events_remove_and_tolerate_absence() {
    let mut state = ClientState::with_cache();
    state.channels.commit(Channel {
        id: ChannelId(1),
        name: "general".to_string(),
        server: None,
        description: None,
    });
    apply_server_event(&mut state, &ServerToClientEvent::ChannelDelete { id: ChannelId(1) })
        .unwrap();
    assert_eq!(state.channels.get(1), None);
    // deleting again is a no-op, not an error
    apply_server_event(&mut state, &ServerToClientEvent::ChannelDelete { id: ChannelId(1) })
        .unwrap();
}

#[test]
fn the_ready_snapshot_populates_every_partition() {
    let mut state = ClientState::with_cache();
    let ev = ServerToClientEvent::Ready {
        event: ReadyEvent {
            users: vec![alice()],
            servers: vec![Server {
                id: ServerId(7),
                name: "hq".to_string(),
                description: None,
                icon: None,
            }],
            channels: vec![Channel {
                id: ChannelId(1),
                name: "general".to_string(),
                server: Some(ServerId(7)),
                description: None,
            }],
            members: vec![Member { id: MemberId(11), nickname: None, avatar: None }],
        },
    };
    apply_server_event(&mut state, &ev).unwrap();
    assert_eq!(state.users.get(3), Some(alice()));
    assert!(state.servers.get(7).is_some());
    assert!(state.channels.get(1).is_some());
    assert!(state.members.get(11).is_some());
}

#[test]
fn a_full_message_event_and_a_patch_event_are_distinct() {
    let mut state = ClientState::with_cache();
    let m = Message {
        id: MessageId(10),
        channel: ChannelId(1),
        author: UserId(3),
        content: "hi".to_string(),
    };
    // the full-entity event establishes the copy wholesale
    apply_server_event(&mut state, &ServerToClientEvent::Message { message: m.clone() }).unwrap();
    // the patch event mutates it in place
    let ev = ServerToClientEvent::MessageUpdate {
        id: MessageId(10),
        channel: ChannelId(1),
        data: PartialMessage { content: Some("edited".to_string()) },
    };
    apply_server_event(&mut state, &ev).unwrap();
    let after = state.messages.get(10).unwrap();
    assert_eq!(after.content, "edited".to_string());
    assert_eq!(after.author, UserId(3));
}
