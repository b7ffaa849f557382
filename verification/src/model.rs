//! The accessor layer: per-kind instantiations of the resolution
//! funnel, and the conveniences built on them (the channel of a
//! message, the server of a channel, replying to a message).
//!
//! The network collaborator is the `Transport` capability, implemented
//! externally over the request transport; the core only requires its
//! shape.  Each accessor runs the funnel: cache lookup, fetch on miss,
//! write-through commit.

use vstd::prelude::*;

use crate::cache::CachePort;
use crate::entity::{Channel, Member, Message, ReplyData, Server, User};
use crate::id::{AttachmentId, ChannelId, MemberId, MessageId, ServerId, UserId};
use crate::resolve::{funnel_post, resolve_fetched, FetchError};

verus! {

/// The client's cached view of server state: one cache port per
/// resolvable entity kind.  The two constructors configure either a
/// cache behind every port or none at all.
pub struct ClientState {
    pub channels: CachePort<Channel>,
    pub servers: CachePort<Server>,
    pub users: CachePort<User>,
    pub members: CachePort<Member>,
    pub messages: CachePort<Message>,
}

impl ClientState {
    /// A state with empty caches configured for every kind.
    pub fn with_cache() -> (r: Self)
        ensures
            r.channels.configured() && r.channels.contents() == Seq::<Channel>::empty(),
            r.servers.configured() && r.servers.contents() == Seq::<Server>::empty(),
            r.users.configured() && r.users.contents() == Seq::<User>::empty(),
            r.members.configured() && r.members.contents() == Seq::<Member>::empty(),
            r.messages.configured() && r.messages.contents() == Seq::<Message>::empty(),
    {
        ClientState {
            channels: CachePort::with_cache(),
            servers: CachePort::with_cache(),
            users: CachePort::with_cache(),
            members: CachePort::with_cache(),
            messages: CachePort::with_cache(),
        }
    }

    /// A state with no cache configured at all.
    pub fn without_cache() -> (r: Self)
        ensures
            !r.channels.configured(),
            !r.servers.configured(),
            !r.users.configured(),
            !r.members.configured(),
            !r.messages.configured(),
    {
        ClientState {
            channels: CachePort::without_cache(),
            servers: CachePort::without_cache(),
            users: CachePort::without_cache(),
            members: CachePort::without_cache(),
            messages: CachePort::without_cache(),
        }
    }
}

/// The network collaborator: one fetch per entity kind, plus sending
/// a message.  Implemented externally over the underlying request
/// transport; nothing is assumed of its answers.
pub trait Transport {
    /// Fetches a channel over the network.
    fn fetch_channel(&mut self, id: ChannelId) -> Result<Channel, FetchError>;

    /// Fetches a server over the network.
    fn fetch_server(&mut self, id: ServerId) -> Result<Server, FetchError>;

    /// Fetches a user over the network.
    fn fetch_user(&mut self, id: UserId) -> Result<User, FetchError>;

    /// Fetches a member over the network.
    fn fetch_member(&mut self, id: MemberId) -> Result<Member, FetchError>;

    /// Sends a message to a channel and returns the message created.
    fn send_message(
        &mut self,
        channel: ChannelId,
        content: String,
        nonce: String,
        attachments: Vec<AttachmentId>,
        replies: Vec<ReplyData>,
    ) -> Result<Message, FetchError>;
}

/// A message under construction.
#[derive(Clone, Debug)]
pub struct CreateMessage {
    pub content: String,
    pub attachments: Vec<AttachmentId>,
    pub replies: Vec<ReplyData>,
}

impl CreateMessage {
    /// An empty message under construction.
    pub fn new() -> (r: Self)
        ensures
            r.content@ == Seq::<char>::empty(),
            r.attachments@ == Seq::<AttachmentId>::empty(),
            r.replies@ == Seq::<ReplyData>::empty(),
    {
        CreateMessage { content: String::new(), attachments: Vec::new(), replies: Vec::new() }
    }

    /// Sets the message text.
    pub fn content(&mut self, content: String)
        ensures
            final(self).content == content,
            final(self).attachments == old(self).attachments,
            final(self).replies == old(self).replies,
    {
        self.content = content;
    }

    /// Appends a batch of attachments.
    pub fn attachments(&mut self, attachments: Vec<AttachmentId>)
        ensures
            final(self).content == old(self).content,
            final(self).attachments@ == old(self).attachments@ + attachments@,
            final(self).replies == old(self).replies,
    {
        let n = attachments.len();
        let mut i: usize = 0;
        while i < n
            invariant
                n == attachments.len(),
                0 <= i <= n,
                self.content == old(self).content,
                self.replies == old(self).replies,
                self.attachments@ == old(self).attachments@ + attachments@.take(i as int),
            decreases n - i,
        {
            proof {
                assert(attachments@.take(i as int).push(attachments@[i as int]) =~= attachments@
                    .take(i as int + 1));
            }
            self.attachments.push(attachments[i]);
            i += 1;
        }
        proof {
            assert(attachments@.take(n as int) =~= attachments@);
        }
    }

    /// Appends one attachment.
    pub fn attachment(&mut self, attachment: AttachmentId)
        ensures
            final(self).content == old(self).content,
            final(self).attachments@ == old(self).attachments@.push(attachment),
            final(self).replies == old(self).replies,
    {
        self.attachments.push(attachment);
    }

    /// Appends a batch of replies.
    pub fn replies(&mut self, replies: Vec<ReplyData>)
        ensures
            final(self).content == old(self).content,
            final(self).attachments == old(self).attachments,
            final(self).replies@ == old(self).replies@ + replies@,
    {
        let n = replies.len();
        let mut i: usize = 0;
        while i < n
            invariant
                n == replies.len(),
                0 <= i <= n,
                self.content == old(self).content,
                self.attachments == old(self).attachments,
                self.replies@ == old(self).replies@ + replies@.take(i as int),
            decreases n - i,
        {
            proof {
                assert(replies@.take(i as int).push(replies@[i as int]) =~= replies@.take(
                    i as int + 1,
                ));
            }
            self.replies.push(replies[i]);
            i += 1;
        }
        proof {
            assert(replies@.take(n as int) =~= replies@);
        }
    }

    /// Appends one reply.
    pub fn reply(&mut self, reply: ReplyData)
        ensures
            final(self).content == old(self).content,
            final(self).attachments == old(self).attachments,
            final(self).replies@ == old(self).replies@.push(reply),
    {
        self.replies.push(reply);
    }
}

/// Relies on rusty_ulid::generate_ulid_string: a freshly generated
/// ULID rendered as a string, which always has exactly 26 (ASCII)
/// characters.  The value depends on the clock and on randomness, so
/// nothing else is assumed of it.  The call aborts on a host clock
/// outside the ULID timestamp range (before 1970 or after the year
/// 10889); that is the environment's fault, not an input that a
/// precondition on a zero-argument function could exclude.
#[verifier::external_body]
fn fresh_nonce() -> (r: String)
    ensures
        r@.len() == 26,
{
    rusty_ulid::generate_ulid_string()
}

/// Resolution and sending for a channel id.
pub trait ChannelIdExt {
    /// Resolves this id to a channel: cache hit, or fetch plus
    /// write-through commit.
    fn channel<T: Transport>(&self, state: &mut ClientState, net: &mut T) -> (r: Result<
        Channel,
        FetchError,
    >)
        ensures
            funnel_post(old(state).channels, final(state).channels, self.chan_key(), r),
            final(state).servers == old(state).servers,
            final(state).users == old(state).users,
            final(state).members == old(state).members,
            final(state).messages == old(state).messages,
            old(state).channels.lookup(self.chan_key()) is Some ==> *final(net) == *old(net),
    ;

    /// The key this id resolves under.
    spec fn chan_key(&self) -> u64;

    /// The server the channel of this id belongs to, if any.
    fn server_id<T: Transport>(&self, state: &mut ClientState, net: &mut T) -> (r: Result<
        Option<ServerId>,
        FetchError,
    >)
        ensures
            final(state).servers == old(state).servers,
            final(state).users == old(state).users,
            final(state).members == old(state).members,
            final(state).messages == old(state).messages,
            old(state).channels.lookup(self.chan_key()) matches Some(e) ==> *final(state) == *old(
                state,
            ) && *final(net) == *old(net) && (r matches Ok(o) && o == e.server),
            r matches Ok(o) ==> exists|c: Channel|
                funnel_post(old(state).channels, final(state).channels, self.chan_key(), Ok(c))
                    && o == c.server,
            r is Err ==> *final(state) == *old(state),
    ;

    /// Resolves the server of this id's channel, if the channel
    /// belongs to one.
    fn server<T: Transport>(&self, state: &mut ClientState, net: &mut T) -> (r: Result<
        Option<Server>,
        FetchError,
    >)
        ensures
            final(state).users == old(state).users,
            final(state).members == old(state).members,
            final(state).messages == old(state).messages,
            final(state).channels.configured() == old(state).channels.configured(),
            final(state).servers.configured() == old(state).servers.configured(),
            (old(state).channels.lookup(self.chan_key()) matches Some(c) && c.server is None) ==> (
            *final(state) == *old(state) && *final(net) == *old(net) && (r matches Ok(o) && o
                is None)),
            old(state).channels.lookup(self.chan_key()) matches Some(c) ==> c.server matches Some(
                sid,
            ) ==> old(state).servers.lookup(sid.0) matches Some(sv) ==> (*final(state) == *old(
                state,
            ) && *final(net) == *old(net) && (r matches Ok(o) && o == Some(sv))),
            r matches Ok(o) ==> exists|c: Channel|
                funnel_post(old(state).channels, final(state).channels, self.chan_key(), Ok(c))
                    && ((c.server is None && o is None && final(state).servers == old(
                    state,
                ).servers) || (c.server matches Some(sid) && o matches Some(sv) && funnel_post(
                    old(state).servers,
                    final(state).servers,
                    sid.0,
                    Ok(sv),
                ))),
            r is Err ==> final(state).servers == old(state).servers && (exists|
                rc: Result<Channel, FetchError>,
            |
                funnel_post(old(state).channels, final(state).channels, self.chan_key(), rc)),
    ;

    /// Builds the message described by `m` and sends it to this
    /// channel with a fresh nonce; the transport's answer is surfaced
    /// verbatim.
    fn send_message<T: Transport>(&self, net: &mut T, m: CreateMessage) -> Result<
        Message,
        FetchError,
    >;
}

impl ChannelIdExt for ChannelId {
    open spec fn chan_key(&self) -> u64 {
        self.0
    }

    fn channel<T: Transport>(&self, state: &mut ClientState, net: &mut T) -> (r: Result<
        Channel,
        FetchError,
    >) {
        match state.channels.get(self.0) {
            Some(e) => Ok(e),
            None => {
                let fetched = net.fetch_channel(*self);
                resolve_fetched(&mut state.channels, fetched)
            },
        }
    }

    fn server_id<T: Transport>(&self, state: &mut ClientState, net: &mut T) -> (r: Result<
        Option<ServerId>,
        FetchError,
    >) {
        let c = match self.channel(state, net) {
            Ok(c) => c,
            Err(f) => {
                return Err(f);
            },
        };
        let o = c.server_id();
        proof {
            assert(funnel_post(old(state).channels, state.channels, self.chan_key(), Ok(c)));
        }
        Ok(o)
    }

    fn server<T: Transport>(&self, state: &mut ClientState, net: &mut T) -> (r: Result<
        Option<Server>,
        FetchError,
    >) {
        let c = match self.channel(state, net) {
            Ok(c) => c,
            Err(f) => {
                proof {
                    assert(funnel_post(
                        old(state).channels,
                        state.channels,
                        self.chan_key(),
                        Err::<Channel, FetchError>(f),
                    ));
                }
                return Err(f);
            },
        };
        let rr = c.server(state, net);
        proof {
            assert(funnel_post(old(state).channels, state.channels, self.chan_key(), Ok(c)));
        }
        rr
    }

    fn send_message<T: Transport>(&self, net: &mut T, m: CreateMessage) -> Result<
        Message,
        FetchError,
    > {
        let nonce = fresh_nonce();
        net.send_message(*self, m.content, nonce, m.attachments, m.replies)
    }
}

/// Resolution of the server a channel belongs to.
pub trait ChannelExt {
    /// Resolves this channel's server, if it belongs to one.
    fn server<T: Transport>(&self, state: &mut ClientState, net: &mut T) -> (r: Result<
        Option<Server>,
        FetchError,
    >)
        ensures
            final(state).channels == old(state).channels,
            final(state).users == old(state).users,
            final(state).members == old(state).members,
            final(state).messages == old(state).messages,
            final(state).servers.configured() == old(state).servers.configured(),
            self.server_of() is None ==> (*final(state) == *old(state) && *final(net) == *old(net)
                && (r matches Ok(o) && o is None)),
            self.server_of() matches Some(sid) ==> {
                &&& old(state).servers.lookup(sid.0) matches Some(sv) ==> (*final(state) == *old(
                    state,
                ) && *final(net) == *old(net) && (r matches Ok(o) && o == Some(sv)))
                &&& r matches Ok(o) ==> (o matches Some(sv) && funnel_post(
                    old(state).servers,
                    final(state).servers,
                    sid.0,
                    Ok(sv),
                ))
                &&& r is Err ==> *final(state) == *old(state)
            },
    ;

    /// The server field this accessor reads.
    spec fn server_of(&self) -> Option<ServerId>;
}

impl ChannelExt for Channel {
    open spec fn server_of(&self) -> Option<ServerId> {
        self.server
    }

    fn server<T: Transport>(&self, state: &mut ClientState, net: &mut T) -> (r: Result<
        Option<Server>,
        FetchError,
    >) {
        let sid = match self.server_id() {
            Some(id) => id,
            None => {
                return Ok(None);
            },
        };
        match sid.server(state, net) {
            Ok(sv) => Ok(Some(sv)),
            Err(f) => Err(f),
        }
    }
}

/// Resolution for a server id.
pub trait ServerIdExt {
    /// Resolves this id to a server: cache hit, or fetch plus
    /// write-through commit.
    fn server<T: Transport>(&self, state: &mut ClientState, net: &mut T) -> (r: Result<
        Server,
        FetchError,
    >)
        ensures
            funnel_post(old(state).servers, final(state).servers, self.srv_key(), r),
            final(state).channels == old(state).channels,
            final(state).users == old(state).users,
            final(state).members == old(state).members,
            final(state).messages == old(state).messages,
            old(state).servers.lookup(self.srv_key()) is Some ==> *final(net) == *old(net),
    ;

    /// The key this id resolves under.
    spec fn srv_key(&self) -> u64;
}

impl ServerIdExt for ServerId {
    open spec fn srv_key(&self) -> u64 {
        self.0
    }

    fn server<T: Transport>(&self, state: &mut ClientState, net: &mut T) -> (r: Result<
        Server,
        FetchError,
    >) {
        match state.servers.get(self.0) {
            Some(e) => Ok(e),
            None => {
                let fetched = net.fetch_server(*self);
                resolve_fetched(&mut state.servers, fetched)
            },
        }
    }
}

/// Resolution for a user id.
pub trait UserIdExt {
    /// Resolves this id to a user: cache hit, or fetch plus
    /// write-through commit.
    fn user<T: Transport>(&self, state: &mut ClientState, net: &mut T) -> (r: Result<
        User,
        FetchError,
    >)
        ensures
            funnel_post(old(state).users, final(state).users, self.user_key(), r),
            final(state).channels == old(state).channels,
            final(state).servers == old(state).servers,
            final(state).members == old(state).members,
            final(state).messages == old(state).messages,
            old(state).users.lookup(self.user_key()) is Some ==> *final(net) == *old(net),
    ;

    /// The key this id resolves under.
    spec fn user_key(&self) -> u64;
}

impl UserIdExt for UserId {
    open spec fn user_key(&self) -> u64 {
        self.0
    }

    fn user<T: Transport>(&self, state: &mut ClientState, net: &mut T) -> (r: Result<
        User,
        FetchError,
    >) {
        match state.users.get(self.0) {
            Some(e) => Ok(e),
            None => {
                let fetched = net.fetch_user(*self);
                resolve_fetched(&mut state.users, fetched)
            },
        }
    }
}

/// Resolution for a member id.
pub trait MemberIdExt {
    /// Resolves this id to a member: cache hit, or fetch plus
    /// write-through commit.
    fn member<T: Transport>(&self, state: &mut ClientState, net: &mut T) -> (r: Result<
        Member,
        FetchError,
    >)
        ensures
            funnel_post(old(state).members, final(state).members, self.member_key(), r),
            final(state).channels == old(state).channels,
            final(state).servers == old(state).servers,
            final(state).users == old(state).users,
            final(state).messages == old(state).messages,
            old(state).members.lookup(self.member_key()) is Some ==> *final(net) == *old(net),
    ;

    /// The key this id resolves under.
    spec fn member_key(&self) -> u64;
}

impl MemberIdExt for MemberId {
    open spec fn member_key(&self) -> u64 {
        self.0
    }

    fn member<T: Transport>(&self, state: &mut ClientState, net: &mut T) -> (r: Result<
        Member,
        FetchError,
    >) {
        match state.members.get(self.0) {
            Some(e) => Ok(e),
            None => {
                let fetched = net.fetch_member(*self);
                resolve_fetched(&mut state.members, fetched)
            },
        }
    }
}

/// Conveniences on a received message.
pub trait MessageExt {
    /// Replies to this message without pinging its author.
    fn reply<T: Transport>(&self, net: &mut T, content: String) -> Result<Message, FetchError>;

    /// Replies to this message, pinging its author.
    fn reply_ping<T: Transport>(&self, net: &mut T, content: String) -> Result<
        Message,
        FetchError,
    >;

    /// Resolves this message's author.
    fn author<T: Transport>(&self, state: &mut ClientState, net: &mut T) -> (r: Result<
        User,
        FetchError,
    >)
        ensures
            funnel_post(old(state).users, final(state).users, self.author_key(), r),
            final(state).channels == old(state).channels,
            final(state).servers == old(state).servers,
            final(state).members == old(state).members,
            final(state).messages == old(state).messages,
            old(state).users.lookup(self.author_key()) is Some ==> *final(net) == *old(net),
    ;

    /// The key of this message's author.
    spec fn author_key(&self) -> u64;

    /// Resolves the channel this message was sent in.
    fn channel<T: Transport>(&self, state: &mut ClientState, net: &mut T) -> (r: Result<
        Channel,
        FetchError,
    >)
        ensures
            funnel_post(old(state).channels, final(state).channels, self.channel_key(), r),
            final(state).servers == old(state).servers,
            final(state).users == old(state).users,
            final(state).members == old(state).members,
            final(state).messages == old(state).messages,
            old(state).channels.lookup(self.channel_key()) is Some ==> *final(net) == *old(net),
    ;

    /// The key of this message's channel.
    spec fn channel_key(&self) -> u64;

    /// The server this message's channel belongs to, if any.
    fn server_id<T: Transport>(&self, state: &mut ClientState, net: &mut T) -> (r: Result<
        Option<ServerId>,
        FetchError,
    >)
        ensures
            final(state).servers == old(state).servers,
            final(state).users == old(state).users,
            final(state).members == old(state).members,
            final(state).messages == old(state).messages,
            old(state).channels.lookup(self.channel_key()) matches Some(e) ==> *final(state)
                == *old(state) && *final(net) == *old(net) && (r matches Ok(o) && o == e.server),
            r matches Ok(o) ==> exists|c: Channel|
                funnel_post(old(state).channels, final(state).channels, self.channel_key(), Ok(c))
                    && o == c.server,
            r is Err ==> *final(state) == *old(state),
    ;

    /// Resolves the server this message's channel belongs to, if any.
    fn server<T: Transport>(&self, state: &mut ClientState, net: &mut T) -> (r: Result<
        Option<Server>,
        FetchError,
    >)
        ensures
            final(state).users == old(state).users,
            final(state).members == old(state).members,
            final(state).messages == old(state).messages,
            final(state).channels.configured() == old(state).channels.configured(),
            final(state).servers.configured() == old(state).servers.configured(),
            (old(state).channels.lookup(self.channel_key()) matches Some(c) && c.server is None)
                ==> (*final(state) == *old(state) && *final(net) == *old(net) && (r matches Ok(o)
                && o is None)),
            old(state).channels.lookup(self.channel_key()) matches Some(c) ==> c.server matches Some(
                sid,
            ) ==> old(state).servers.lookup(sid.0) matches Some(sv) ==> (*final(state) == *old(
                state,
            ) && *final(net) == *old(net) && (r matches Ok(o) && o == Some(sv))),
            r matches Ok(o) ==> exists|c: Channel|
                funnel_post(old(state).channels, final(state).channels, self.channel_key(), Ok(c))
                    && ((c.server is None && o is None && final(state).servers == old(
                    state,
                ).servers) || (c.server matches Some(sid) && o matches Some(sv) && funnel_post(
                    old(state).servers,
                    final(state).servers,
                    sid.0,
                    Ok(sv),
                ))),
            r is Err ==> final(state).servers == old(state).servers && (exists|
                rc: Result<Channel, FetchError>,
            |
                funnel_post(old(state).channels, final(state).channels, self.channel_key(), rc)),
    ;
}

impl MessageExt for Message {
    open spec fn author_key(&self) -> u64 {
        self.author.0
    }

    open spec fn channel_key(&self) -> u64 {
        self.channel.0
    }

    fn reply<T: Transport>(&self, net: &mut T, content: String) -> Result<Message, FetchError> {
        let mut m = CreateMessage::new();
        m.content(content);
        m.reply(ReplyData { id: self.id, mention: false });
        self.channel.send_message(net, m)
    }

    fn reply_ping<T: Transport>(&self, net: &mut T, content: String) -> Result<
        Message,
        FetchError,
    > {
        let mut m = CreateMessage::new();
        m.content(content);
        m.reply(ReplyData { id: self.id, mention: true });
        self.channel.send_message(net, m)
    }

    fn author<T: Transport>(&self, state: &mut ClientState, net: &mut T) -> (r: Result<
        User,
        FetchError,
    >) {
        self.author.user(state, net)
    }

    fn channel<T: Transport>(&self, state: &mut ClientState, net: &mut T) -> (r: Result<
        Channel,
        FetchError,
    >) {
        self.channel.channel(state, net)
    }

    fn server_id<T: Transport>(&self, state: &mut ClientState, net: &mut T) -> (r: Result<
        Option<ServerId>,
        FetchError,
    >) {
        ChannelIdExt::server_id(&self.channel, state, net)
    }

    fn server<T: Transport>(&self, state: &mut ClientState, net: &mut T) -> (r: Result<
        Option<Server>,
        FetchError,
    >) {
        ChannelIdExt::server(&self.channel, state, net)
    }
}

} // verus!
