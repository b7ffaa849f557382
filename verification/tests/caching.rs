use robespierre::entity::{
    Channel, ChannelClears, Member, MemberClears, Message, PartialChannel, PartialMember,
    PartialMessage, PartialRole, PartialServer, PartialUser, Role, RoleClears, Server,
    ServerClears, User, UserClears,
};
use robespierre::id::{AttachmentId, ChannelId, MemberId, MessageId, ServerId, UserId};
use robespierre::model::{
    ChannelIdExt, ClientState, MemberIdExt, MessageExt, ServerIdExt, Transport, UserIdExt,
};
use robespierre::patch::{
    apply_channel_patch, apply_member_patch, apply_message_patch, apply_role_patch,
    apply_server_patch, apply_user_patch,
};
use robespierre::resolve::FetchError;

struct FakeNet {
    fetches: u32,
    user: Option<User>,
    channel: Option<Channel>,
    server: Option<Server>,
}

impl FakeNet {
    fn new() -> FakeNet {
        FakeNet { fetches: 0, user: None, channel: None, server: None }
    }
}

fn fail() -> FetchError {
    FetchError { detail: "not found".to_string() }
}

impl Transport for FakeNet {
    fn fetch_channel(&mut self, _id: ChannelId) -> Result<Channel, FetchError> {
        self.fetches += 1;
        self.channel.clone().ok_or_else(fail)
    }

    fn fetch_server(&mut self, _id: ServerId) -> Result<Server, FetchError> {
        self.fetches += 1;
        self.server.clone().ok_or_else(fail)
    }

    fn fetch_user(&mut self, _id: UserId) -> Result<User, FetchError> {
        self.fetches += 1;
        self.user.clone().ok_or_else(fail)
    }

    fn fetch_member(&mut self, _id: MemberId) -> Result<Member, FetchError> {
        self.fetches += 1;
        Err(fail())
    }

    fn send_message(
        &mut self,
        channel: ChannelId,
        content: String,
        nonce: String,
        _attachments: Vec<AttachmentId>,
        _replies: Vec<robespierre::entity::ReplyData>,
    ) -> Result<Message, FetchError> {
        assert_eq!(nonce.len(), 26);
        Ok(Message { id: MessageId(999), channel, author: UserId(0), content })
    }
}

fn general() -> Channel {
    Channel {
        id: ChannelId(1),
        name: "general".to_string(),
        server: Some(ServerId(7)),
        description: None,
    }
}

#[test]
fn second_resolve_is_a_cache_hit() {
    let mut state = ClientState::with_cache();
    let mut net = FakeNet::new();
    net.channel = Some(general());

    let first = ChannelId(1).channel(&mut state, &mut net).unwrap();
    assert_eq!(first, general());
    assert_eq!(net.fetches, 1);

    let second = ChannelId(1).channel(&mut state, &mut net).unwrap();
    assert_eq!(second, general());
    assert_eq!(net.fetches, 1);
}

#[test]
fn no_cache_always_fetches_and_never_errs_on_the_cache() {
    let mut state = ClientState::without_cache();
    let mut net = FakeNet::new();
    net.channel = Some(general());

    let first = ChannelId(1).channel(&mut state, &mut net).unwrap();
    let second = ChannelId(1).channel(&mut state, &mut net).unwrap();
    assert_eq!(first, second);
    assert_eq!(net.fetches, 2);
}

#[test]
fn fetch_failure_surfaces_verbatim() {
    let mut state = ClientState::with_cache();
    let mut net = FakeNet::new();

    let r = UserId(4).user(&mut state, &mut net);
    assert_eq!(r, Err(FetchError { detail: "not found".to_string() }));
    assert_eq!(net.fetches, 1);
}

#[test]
fn server_accessor_resolves_through_the_channel() {
    let mut state = ClientState::with_cache();
    let mut net = FakeNet::new();
    net.channel = Some(general());
    net.server = Some(Server {
        id: ServerId(7),
        name: "hq".to_string(),
        description: None,
        icon: None,
    });

    let sv = ChannelId(1).server(&mut state, &mut net).unwrap();
    assert_eq!(sv.as_ref().map(|s| s.id), Some(ServerId(7)));
    assert_eq!(net.fetches, 2);

    // both the channel and its server are now cached
    let sv2 = ChannelId(1).server(&mut state, &mut net).unwrap();
    assert_eq!(sv, sv2);
    assert_eq!(net.fetches, 2);
}

#[test]
fn direct_message_channel_has_no_server() {
    let mut state = ClientState::with_cache();
    let mut net = FakeNet::new();
    net.channel = Some(Channel {
        id: ChannelId(2),
        name: "dm".to_string(),
        server: None,
        description: None,
    });

    let sv = ChannelId(2).server(&mut state, &mut net).unwrap();
    assert_eq!(sv, None);
    assert_eq!(net.fetches, 1);
}

#[test]
fn message_accessors_resolve_author_and_channel() {
    let mut state = ClientState::with_cache();
    let mut net = FakeNet::new();
    net.channel = Some(general());
    net.user = Some(User {
        id: UserId(3),
        username: "alice".to_string(),
        nickname: None,
        status: None,
    });

    let m = Message {
        id: MessageId(10),
        channel: ChannelId(1),
        author: UserId(3),
        content: "hi".to_string(),
    };
    let author = m.author(&mut state, &mut net).unwrap();
    assert_eq!(author.username, "alice".to_string());
    let ch = MessageExt::channel(&m, &mut state, &mut net).unwrap();
    assert_eq!(ch, general());
    let sid = MessageExt::server_id(&m, &mut state, &mut net).unwrap();
    assert_eq!(sid, Some(ServerId(7)));
}

#[test]
fn reply_sends_through_the_transport() {
    let mut net = FakeNet::new();
    let m = Message {
        id: MessageId(10),
        channel: ChannelId(1),
        author: UserId(3),
        content: "hi".to_string(),
    };
    let sent = m.reply(&mut net, "hello".to_string()).unwrap();
    assert_eq!(sent.channel, ChannelId(1));
    assert_eq!(sent.content, "hello".to_string());
}

#[test]
fn commit_is_idempotent_for_every_observer() {
    let user = User {
        id: UserId(5),
        username: "bob".to_string(),
        nickname: Some("Bob".to_string()),
        status: None,
    };
    let mut once = robespierre::cache::CachePort::<User>::with_cache();
    let mut twice = robespierre::cache::CachePort::<User>::with_cache();
    once.commit(user.clone());
    twice.commit(user.clone());
    twice.commit(user.clone());
    assert_eq!(once.get(5), twice.get(5));
    assert_eq!(once.get(6), twice.get(6));
}

#[test]
fn removing_an_absent_id_is_a_no_op() {
    let mut port = robespierre::cache::CachePort::<User>::with_cache();
    port.remove(42);
    assert_eq!(port.get(42), None);
}

#[test]
fn clearing_wins_over_patching_on_the_same_field() {
    let existing = User {
        id: UserId(1),
        username: "bob".to_string(),
        nickname: Some("Bob".to_string()),
        status: None,
    };
    let patch = PartialUser {
        username: None,
        nickname: Some("Bobby".to_string()),
        status: None,
    };
    let clears = UserClears { nickname: true, status: false };
    let out = apply_user_patch(Some(existing), &patch, clears).unwrap();
    assert_eq!(out.id, UserId(1));
    assert_eq!(out.nickname, None);
}

#[test]
fn untouched_fields_are_left_unchanged() {
    let existing = User {
        id: UserId(1),
        username: "bob".to_string(),
        nickname: Some("Bob".to_string()),
        status: Some("online".to_string()),
    };
    let patch = PartialUser {
        username: None,
        nickname: None,
        status: Some("idle".to_string()),
    };
    let out = apply_user_patch(Some(existing), &patch, UserClears::none()).unwrap();
    assert_eq!(out.nickname, Some("Bob".to_string()));
    assert_eq!(out.status, Some("idle".to_string()));
    assert_eq!(out.username, "bob".to_string());
}

#[test]
fn a_patch_without_a_snapshot_is_an_orphan() {
    let patch = PartialUser { username: None, nickname: None, status: None };
    let r = apply_user_patch(None, &patch, UserClears::none());
    assert!(r.is_err());
}

#[test]
fn builders_accumulate() {
    let mut m = robespierre::model::CreateMessage::new();
    m.content("hello".to_string());
    m.attachment(AttachmentId(1));
    m.attachments(vec![AttachmentId(2), AttachmentId(3)]);
    m.reply(robespierre::entity::ReplyData { id: MessageId(9), mention: false });
    m.replies(vec![robespierre::entity::ReplyData { id: MessageId(8), mention: true }]);
    assert_eq!(m.content, "hello".to_string());
    assert_eq!(m.attachments, vec![AttachmentId(1), AttachmentId(2), AttachmentId(3)]);
    assert_eq!(m.replies.len(), 2);
    assert_eq!(m.replies[0].id, MessageId(9));
    assert_eq!(m.replies[1].mention, true);
}

#[test]
fn channel_clears_bridge_the_field_enumeration() {
    let c = ChannelClears { server: false, description: true };
    assert!(!c.contains(robespierre::entity::ChannelField::Server));
    assert!(c.contains(robespierre::entity::ChannelField::Description));
}

#[test]
fn member_resolution_runs_the_same_funnel() {
    struct OneMember {
        fetches: u32,
    }
    impl Transport for OneMember {
        fn fetch_channel(&mut self, _id: ChannelId) -> Result<Channel, FetchError> {
            Err(fail())
        }
        fn fetch_server(&mut self, _id: ServerId) -> Result<Server, FetchError> {
            Err(fail())
        }
        fn fetch_user(&mut self, _id: UserId) -> Result<User, FetchError> {
            Err(fail())
        }
        fn fetch_member(&mut self, id: MemberId) -> Result<Member, FetchError> {
            self.fetches += 1;
            Ok(Member { id, nickname: Some("Ali".to_string()), avatar: None })
        }
        fn send_message(
            &mut self,
            _channel: ChannelId,
            _content: String,
            _nonce: String,
            _attachments: Vec<AttachmentId>,
            _replies: Vec<robespierre::entity::ReplyData>,
        ) -> Result<Message, FetchError> {
            Err(fail())
        }
    }
    let mut state = ClientState::with_cache();
    let mut net = OneMember { fetches: 0 };
    let first = MemberId(11).member(&mut state, &mut net).unwrap();
    let second = MemberId(11).member(&mut state, &mut net).unwrap();
    assert_eq!(first, second);
    assert_eq!(net.fetches, 1);
}

#[test]
fn channel_patch_clears_the_server_field() {
    let existing = Channel {
        id: ChannelId(1),
        name: "general".to_string(),
        server: Some(ServerId(7)),
        description: Some("old".to_string()),
    };
    let patch = PartialChannel {
        name: None,
        server: Some(ServerId(8)),
        description: Some("new".to_string()),
    };
    let clears = ChannelClears { server: true, description: false };
    let out = apply_channel_patch(Some(existing), &patch, clears).unwrap();
    assert_eq!(out.server, None);
    assert_eq!(out.description, Some("new".to_string()));
    assert_eq!(out.name, "general".to_string());
}

#[test]
fn server_patch_applies_and_clears() {
    let existing = Server {
        id: ServerId(7),
        name: "hq".to_string(),
        description: Some("old".to_string()),
        icon: Some(AttachmentId(4)),
    };
    let patch = PartialServer { name: Some("hq2".to_string()), description: None, icon: None };
    let clears = ServerClears { description: false, icon: true };
    let out = apply_server_patch(Some(existing), &patch, clears).unwrap();
    assert_eq!(out.name, "hq2".to_string());
    assert_eq!(out.description, Some("old".to_string()));
    assert_eq!(out.icon, None);
}

#[test]
fn member_patch_applies_and_clears() {
    let existing = Member {
        id: MemberId(11),
        nickname: Some("Ali".to_string()),
        avatar: Some(AttachmentId(4)),
    };
    let patch = PartialMember { nickname: None, avatar: Some(AttachmentId(5)) };
    let clears = MemberClears { nickname: true, avatar: false };
    let out = apply_member_patch(Some(existing), &patch, clears).unwrap();
    assert_eq!(out.nickname, None);
    assert_eq!(out.avatar, Some(AttachmentId(5)));
}

#[test]
fn role_patch_applies_and_clears() {
    let existing = Role { name: "mods".to_string(), colour: Some("red".to_string()) };
    let patch = PartialRole { name: Some("admins".to_string()), colour: None };
    let out = apply_role_patch(Some(existing), &patch, RoleClears { colour: true }).unwrap();
    assert_eq!(out.name, "admins".to_string());
    assert_eq!(out.colour, None);
}

#[test]
fn message_patch_rewrites_only_the_content() {
    let existing = Message {
        id: MessageId(10),
        channel: ChannelId(1),
        author: UserId(3),
        content: "hi".to_string(),
    };
    let patch = PartialMessage { content: Some("edited".to_string()) };
    let out = apply_message_patch(Some(existing), &patch).unwrap();
    assert_eq!(out.content, "edited".to_string());
    assert_eq!(out.author, UserId(3));
    assert_eq!(out.channel, ChannelId(1));
}

#[test]
fn a_failed_server_fetch_still_keeps_the_fetched_channel() {
    let mut state = ClientState::with_cache();
    let mut net = FakeNet::new();
    net.channel = Some(general());
    // the channel resolves and is written through; its server does not
    let r = ChannelId(1).server(&mut state, &mut net);
    assert_eq!(r, Err(FetchError { detail: "not found".to_string() }));
    assert_eq!(state.channels.get(1), Some(general()));
    assert_eq!(state.servers.get(7), None);
    // the next resolution of the channel itself is a cache hit
    assert_eq!(ChannelId(1).channel(&mut state, &mut net), Ok(general()));
    assert_eq!(net.fetches, 2);
}
