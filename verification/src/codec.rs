//! How entities, partial patches and clear sets read from and render
//! to wire objects.
//!
//! Every reader has a specification-level twin; every writer's
//! contract says that reading its output back yields the value that
//! was written.  Absent and null keys read as absent; a key holding a
//! value of the wrong shape is a structural mismatch.

use vstd::prelude::*;

use crate::entity::{
    Channel, ChannelClears, ChannelField, Member, MemberClears, MemberField, Message,
    PartialChannel, PartialMember, PartialMessage, PartialRole, PartialServer, PartialUser, Role,
    RoleClears, RoleField, Server, ServerClears, ServerField, User, UserClears, UserField,
};
use crate::id::{AttachmentId, ChannelId, MemberId, MessageId, ServerId, UserId};
use crate::wire::{
    get_str, get_u64, lemma_obj_get1, lemma_obj_get2, lemma_obj_get3, lemma_obj_get4, obj_get,
    opt_str, opt_u64, spec_get_str, spec_get_u64, spec_obj_get, spec_opt_str, spec_opt_u64,
    WireItem, WireValue,
};

verus! {

impl UserClears {
    /// Whether this clear set names `f`.
    pub fn contains(&self, f: UserField) -> (r: bool)
        ensures
            r == match f {
                UserField::Nickname => self.nickname,
                UserField::Status => self.status,
            },
    {
        match f {
            UserField::Nickname => self.nickname,
            UserField::Status => self.status,
        }
    }
}

impl ChannelClears {
    /// Whether this clear set names `f`.
    pub fn contains(&self, f: ChannelField) -> (r: bool)
        ensures
            r == match f {
                ChannelField::Server => self.server,
                ChannelField::Description => self.description,
            },
    {
        match f {
            ChannelField::Server => self.server,
            ChannelField::Description => self.description,
        }
    }
}

impl ServerClears {
    /// Whether this clear set names `f`.
    pub fn contains(&self, f: ServerField) -> (r: bool)
        ensures
            r == match f {
                ServerField::Description => self.description,
                ServerField::Icon => self.icon,
            },
    {
        match f {
            ServerField::Description => self.description,
            ServerField::Icon => self.icon,
        }
    }
}

impl MemberClears {
    /// Whether this clear set names `f`.
    pub fn contains(&self, f: MemberField) -> (r: bool)
        ensures
            r == match f {
                MemberField::Nickname => self.nickname,
                MemberField::Avatar => self.avatar,
            },
    {
        match f {
            MemberField::Nickname => self.nickname,
            MemberField::Avatar => self.avatar,
        }
    }
}

impl RoleClears {
    /// Whether this clear set names `f`.
    pub fn contains(&self, f: RoleField) -> (r: bool)
        ensures
            r == match f {
                RoleField::Colour => self.colour,
            },
    {
        match f {
            RoleField::Colour => self.colour,
        }
    }
}

/// What a user object reads as.
pub open spec fn spec_user_of(oo: Seq<(String, WireValue)>) -> Option<User> {
    match spec_get_u64(oo, "id"@) {
        None => None,
        Some(id) => match spec_get_str(oo, "username"@) {
            None => None,
            Some(un) => match spec_opt_str(oo, "nickname"@) {
                None => None,
                Some(nick) => match spec_opt_str(oo, "status"@) {
                    None => None,
                    Some(st) => Some(
                        User { id: UserId(id), username: un, nickname: nick, status: st },
                    ),
                },
            },
        },
    }
}

/// Reads a user object, exactly as `spec_user_of` describes it.
pub fn user_of(o: &Vec<(String, WireValue)>) -> (r: Option<User>)
    ensures
        r == spec_user_of(o@),
{
    let id = match get_u64(o, &("id".to_owned())) {
        Some(x) => x,
        None => {
            return None;
        },
    };
    let username = match get_str(o, &("username".to_owned())) {
        Some(s) => s,
        None => {
            return None;
        },
    };
    let nickname = match opt_str(o, &("nickname".to_owned())) {
        Some(v) => v,
        None => {
            return None;
        },
    };
    let status = match opt_str(o, &("status".to_owned())) {
        Some(v) => v,
        None => {
            return None;
        },
    };
    Some(User { id: UserId(id), username, nickname, status })
}

/// An optional string rendered on the wire: the value, or null.
pub(crate) fn opt_str_wire(v: &Option<String>) -> (r: WireValue)
    ensures
        (*v) matches Some(s) ==> r == WireValue::Str(s),
        (*v) is None ==> r == WireValue::Null,
{
    match v {
        Some(s) => WireValue::Str(s.clone()),
        None => WireValue::Null,
    }
}

/// Renders a user; reading the fields back yields the user itself.
pub fn user_fields(u: &User) -> (o: Vec<(String, WireValue)>)
    ensures
        spec_user_of(o@) == Some(*u),
{
    let mut o: Vec<(String, WireValue)> = Vec::new();
    o.push(("id".to_owned(), WireValue::UInt(u.id.0)));
    o.push(("username".to_owned(), WireValue::Str(u.username.clone())));
    o.push(("nickname".to_owned(), opt_str_wire(&u.nickname)));
    o.push(("status".to_owned(), opt_str_wire(&u.status)));
    proof {
        reveal_strlit("id");
        reveal_strlit("username");
        reveal_strlit("nickname");
        reveal_strlit("status");
        assert("id"@.len() == 2);
        assert("username"@.len() == 8);
        assert("nickname"@.len() == 8);
        assert("status"@.len() == 6);
        assert("username"@[0] == 'u' && "nickname"@[0] == 'n');
        lemma_obj_get4(o@, "id"@);
        lemma_obj_get4(o@, "username"@);
        lemma_obj_get4(o@, "nickname"@);
        lemma_obj_get4(o@, "status"@);
    }
    o
}

/// What a channel object reads as.
pub open spec fn spec_channel_of(oo: Seq<(String, WireValue)>) -> Option<Channel> {
    match spec_get_u64(oo, "id"@) {
        None => None,
        Some(id) => match spec_get_str(oo, "name"@) {
            None => None,
            Some(name) => match spec_opt_u64(oo, "server"@) {
                None => None,
                Some(srv) => match spec_opt_str(oo, "description"@) {
                    None => None,
                    Some(desc) => Some(
                        Channel {
                            id: ChannelId(id),
                            name,
                            server: match srv {
                                Some(x) => Some(ServerId(x)),
                                None => None,
                            },
                            description: desc,
                        },
                    ),
                },
            },
        },
    }
}

/// Reads a channel object, exactly as `spec_channel_of` describes it.
pub fn channel_of(o: &Vec<(String, WireValue)>) -> (r: Option<Channel>)
    ensures
        r == spec_channel_of(o@),
{
    let id = match get_u64(o, &("id".to_owned())) {
        Some(x) => x,
        None => {
            return None;
        },
    };
    let name = match get_str(o, &("name".to_owned())) {
        Some(s) => s,
        None => {
            return None;
        },
    };
    let server = match opt_u64(o, &("server".to_owned())) {
        Some(Some(x)) => Some(ServerId(x)),
        Some(None) => None,
        None => {
            return None;
        },
    };
    let description = match opt_str(o, &("description".to_owned())) {
        Some(v) => v,
        None => {
            return None;
        },
    };
    Some(Channel { id: ChannelId(id), name, server, description })
}

/// Renders a channel; reading the fields back yields the channel.
pub fn channel_fields(c: &Channel) -> (o: Vec<(String, WireValue)>)
    ensures
        spec_channel_of(o@) == Some(*c),
{
    let mut o: Vec<(String, WireValue)> = Vec::new();
    o.push(("id".to_owned(), WireValue::UInt(c.id.0)));
    o.push(("name".to_owned(), WireValue::Str(c.name.clone())));
    match c.server {
        Some(sid) => o.push(("server".to_owned(), WireValue::UInt(sid.0))),
        None => o.push(("server".to_owned(), WireValue::Null)),
    }
    o.push(("description".to_owned(), opt_str_wire(&c.description)));
    proof {
        reveal_strlit("id");
        reveal_strlit("name");
        reveal_strlit("server");
        reveal_strlit("description");
        assert("id"@.len() == 2);
        assert("name"@.len() == 4);
        assert("server"@.len() == 6);
        assert("description"@.len() == 11);
        lemma_obj_get4(o@, "id"@);
        lemma_obj_get4(o@, "name"@);
        lemma_obj_get4(o@, "server"@);
        lemma_obj_get4(o@, "description"@);
    }
    o
}

/// What a server object reads as.
pub open spec fn spec_server_of(oo: Seq<(String, WireValue)>) -> Option<Server> {
    match spec_get_u64(oo, "id"@) {
        None => None,
        Some(id) => match spec_get_str(oo, "name"@) {
            None => None,
            Some(name) => match spec_opt_str(oo, "description"@) {
                None => None,
                Some(desc) => match spec_opt_u64(oo, "icon"@) {
                    None => None,
                    Some(icon) => Some(
                        Server {
                            id: ServerId(id),
                            name,
                            description: desc,
                            icon: match icon {
                                Some(x) => Some(AttachmentId(x)),
                                None => None,
                            },
                        },
                    ),
                },
            },
        },
    }
}

/// Reads a server object, exactly as `spec_server_of` describes it.
pub fn server_of(o: &Vec<(String, WireValue)>) -> (r: Option<Server>)
    ensures
        r == spec_server_of(o@),
{
    let id = match get_u64(o, &("id".to_owned())) {
        Some(x) => x,
        None => {
            return None;
        },
    };
    let name = match get_str(o, &("name".to_owned())) {
        Some(s) => s,
        None => {
            return None;
        },
    };
    let description = match opt_str(o, &("description".to_owned())) {
        Some(v) => v,
        None => {
            return None;
        },
    };
    let icon = match opt_u64(o, &("icon".to_owned())) {
        Some(Some(x)) => Some(AttachmentId(x)),
        Some(None) => None,
        None => {
            return None;
        },
    };
    Some(Server { id: ServerId(id), name, description, icon })
}

/// Renders a server; reading the fields back yields the server.
pub fn server_fields(s: &Server) -> (o: Vec<(String, WireValue)>)
    ensures
        spec_server_of(o@) == Some(*s),
{
    let mut o: Vec<(String, WireValue)> = Vec::new();
    o.push(("id".to_owned(), WireValue::UInt(s.id.0)));
    o.push(("name".to_owned(), WireValue::Str(s.name.clone())));
    o.push(("description".to_owned(), opt_str_wire(&s.description)));
    match s.icon {
        Some(a) => o.push(("icon".to_owned(), WireValue::UInt(a.0))),
        None => o.push(("icon".to_owned(), WireValue::Null)),
    }
    proof {
        reveal_strlit("id");
        reveal_strlit("name");
        reveal_strlit("description");
        reveal_strlit("icon");
        assert("id"@.len() == 2);
        assert("name"@.len() == 4);
        assert("description"@.len() == 11);
        assert("icon"@.len() == 4);
        assert("name"@[0] == 'n' && "icon"@[0] == 'i');
        lemma_obj_get4(o@, "id"@);
        lemma_obj_get4(o@, "name"@);
        lemma_obj_get4(o@, "description"@);
        lemma_obj_get4(o@, "icon"@);
    }
    o
}

/// What a member object reads as.
pub open spec fn spec_member_of(oo: Seq<(String, WireValue)>) -> Option<Member> {
    match spec_get_u64(oo, "id"@) {
        None => None,
        Some(id) => match spec_opt_str(oo, "nickname"@) {
            None => None,
            Some(nick) => match spec_opt_u64(oo, "avatar"@) {
                None => None,
                Some(av) => Some(
                    Member {
                        id: MemberId(id),
                        nickname: nick,
                        avatar: match av {
                            Some(x) => Some(AttachmentId(x)),
                            None => None,
                        },
                    },
                ),
            },
        },
    }
}

/// Reads a member object, exactly as `spec_member_of` describes it.
pub fn member_of(o: &Vec<(String, WireValue)>) -> (r: Option<Member>)
    ensures
        r == spec_member_of(o@),
{
    let id = match get_u64(o, &("id".to_owned())) {
        Some(x) => x,
        None => {
            return None;
        },
    };
    let nickname = match opt_str(o, &("nickname".to_owned())) {
        Some(v) => v,
        None => {
            return None;
        },
    };
    let avatar = match opt_u64(o, &("avatar".to_owned())) {
        Some(Some(x)) => Some(AttachmentId(x)),
        Some(None) => None,
        None => {
            return None;
        },
    };
    Some(Member { id: MemberId(id), nickname, avatar })
}

/// Renders a member; reading the fields back yields the member.
pub fn member_fields(m: &Member) -> (o: Vec<(String, WireValue)>)
    ensures
        spec_member_of(o@) == Some(*m),
{
    let mut o: Vec<(String, WireValue)> = Vec::new();
    o.push(("id".to_owned(), WireValue::UInt(m.id.0)));
    o.push(("nickname".to_owned(), opt_str_wire(&m.nickname)));
    match m.avatar {
        Some(a) => o.push(("avatar".to_owned(), WireValue::UInt(a.0))),
        None => o.push(("avatar".to_owned(), WireValue::Null)),
    }
    proof {
        reveal_strlit("id");
        reveal_strlit("nickname");
        reveal_strlit("avatar");
        assert("id"@.len() == 2);
        assert("nickname"@.len() == 8);
        assert("avatar"@.len() == 6);
        lemma_obj_get3(o@, "id"@);
        lemma_obj_get3(o@, "nickname"@);
        lemma_obj_get3(o@, "avatar"@);
    }
    o
}

/// What a message object reads as.
pub open spec fn spec_message_of(oo: Seq<(String, WireValue)>) -> Option<Message> {
    match spec_get_u64(oo, "id"@) {
        None => None,
        Some(id) => match spec_get_u64(oo, "channel"@) {
            None => None,
            Some(ch) => match spec_get_u64(oo, "author"@) {
                None => None,
                Some(au) => match spec_get_str(oo, "content"@) {
                    None => None,
                    Some(content) => Some(
                        Message {
                            id: MessageId(id),
                            channel: ChannelId(ch),
                            author: UserId(au),
                            content,
                        },
                    ),
                },
            },
        },
    }
}

/// Reads a message object, exactly as `spec_message_of` describes it.
pub fn message_of(o: &Vec<(String, WireValue)>) -> (r: Option<Message>)
    ensures
        r == spec_message_of(o@),
{
    let id = match get_u64(o, &("id".to_owned())) {
        Some(x) => x,
        None => {
            return None;
        },
    };
    let channel = match get_u64(o, &("channel".to_owned())) {
        Some(x) => x,
        None => {
            return None;
        },
    };
    let author = match get_u64(o, &("author".to_owned())) {
        Some(x) => x,
        None => {
            return None;
        },
    };
    let content = match get_str(o, &("content".to_owned())) {
        Some(s) => s,
        None => {
            return None;
        },
    };
    Some(Message { id: MessageId(id), channel: ChannelId(channel), author: UserId(author), content })
}

/// Renders a message; reading the fields back yields the message.
pub fn message_fields(m: &Message) -> (o: Vec<(String, WireValue)>)
    ensures
        spec_message_of(o@) == Some(*m),
{
    let mut o: Vec<(String, WireValue)> = Vec::new();
    o.push(("id".to_owned(), WireValue::UInt(m.id.0)));
    o.push(("channel".to_owned(), WireValue::UInt(m.channel.0)));
    o.push(("author".to_owned(), WireValue::UInt(m.author.0)));
    o.push(("content".to_owned(), WireValue::Str(m.content.clone())));
    proof {
        reveal_strlit("id");
        reveal_strlit("channel");
        reveal_strlit("author");
        reveal_strlit("content");
        assert("id"@.len() == 2);
        assert("channel"@.len() == 7);
        assert("author"@.len() == 6);
        assert("content"@.len() == 7);
        assert("channel"@[1] == 'h' && "content"@[1] == 'o');
        lemma_obj_get4(o@, "id"@);
        lemma_obj_get4(o@, "channel"@);
        lemma_obj_get4(o@, "author"@);
        lemma_obj_get4(o@, "content"@);
    }
    o
}

impl WireItem for User {
    open spec fn spec_dec(v: WireValue) -> Option<User> {
        match v {
            WireValue::Obj(o) => spec_user_of(o@),
            _ => None,
        }
    }

    fn dec(v: &WireValue) -> (r: Option<User>) {
        match v {
            WireValue::Obj(o) => user_of(o),
            _ => None,
        }
    }

    fn enc(&self) -> (r: WireValue) {
        WireValue::Obj(user_fields(self))
    }
}

impl WireItem for Channel {
    open spec fn spec_dec(v: WireValue) -> Option<Channel> {
        match v {
            WireValue::Obj(o) => spec_channel_of(o@),
            _ => None,
        }
    }

    fn dec(v: &WireValue) -> (r: Option<Channel>) {
        match v {
            WireValue::Obj(o) => channel_of(o),
            _ => None,
        }
    }

    fn enc(&self) -> (r: WireValue) {
        WireValue::Obj(channel_fields(self))
    }
}

impl WireItem for Server {
    open spec fn spec_dec(v: WireValue) -> Option<Server> {
        match v {
            WireValue::Obj(o) => spec_server_of(o@),
            _ => None,
        }
    }

    fn dec(v: &WireValue) -> (r: Option<Server>) {
        match v {
            WireValue::Obj(o) => server_of(o),
            _ => None,
        }
    }

    fn enc(&self) -> (r: WireValue) {
        WireValue::Obj(server_fields(self))
    }
}

impl WireItem for Member {
    open spec fn spec_dec(v: WireValue) -> Option<Member> {
        match v {
            WireValue::Obj(o) => spec_member_of(o@),
            _ => None,
        }
    }

    fn dec(v: &WireValue) -> (r: Option<Member>) {
        match v {
            WireValue::Obj(o) => member_of(o),
            _ => None,
        }
    }

    fn enc(&self) -> (r: WireValue) {
        WireValue::Obj(member_fields(self))
    }
}

/// What a user patch object reads as.
pub open spec fn spec_partial_user_of(oo: Seq<(String, WireValue)>) -> Option<PartialUser> {
    match spec_opt_str(oo, "username"@) {
        None => None,
        Some(un) => match spec_opt_str(oo, "nickname"@) {
            None => None,
            Some(nick) => match spec_opt_str(oo, "status"@) {
                None => None,
                Some(st) => Some(PartialUser { username: un, nickname: nick, status: st }),
            },
        },
    }
}

/// Reads a user patch, exactly as `spec_partial_user_of` describes it.
pub fn partial_user_of(o: &Vec<(String, WireValue)>) -> (r: Option<PartialUser>)
    ensures
        r == spec_partial_user_of(o@),
{
    let username = match opt_str(o, &("username".to_owned())) {
        Some(v) => v,
        None => {
            return None;
        },
    };
    let nickname = match opt_str(o, &("nickname".to_owned())) {
        Some(v) => v,
        None => {
            return None;
        },
    };
    let status = match opt_str(o, &("status".to_owned())) {
        Some(v) => v,
        None => {
            return None;
        },
    };
    Some(PartialUser { username, nickname, status })
}

/// Renders a user patch; reading it back yields the patch.
pub fn partial_user_fields(p: &PartialUser) -> (o: Vec<(String, WireValue)>)
    ensures
        spec_partial_user_of(o@) == Some(*p),
{
    let mut o: Vec<(String, WireValue)> = Vec::new();
    o.push(("username".to_owned(), opt_str_wire(&p.username)));
    o.push(("nickname".to_owned(), opt_str_wire(&p.nickname)));
    o.push(("status".to_owned(), opt_str_wire(&p.status)));
    proof {
        reveal_strlit("username");
        reveal_strlit("nickname");
        reveal_strlit("status");
        assert("username"@.len() == 8);
        assert("nickname"@.len() == 8);
        assert("status"@.len() == 6);
        assert("username"@[0] == 'u' && "nickname"@[0] == 'n');
        lemma_obj_get3(o@, "username"@);
        lemma_obj_get3(o@, "nickname"@);
        lemma_obj_get3(o@, "status"@);
    }
    o
}

/// What a channel patch object reads as.
pub open spec fn spec_partial_channel_of(oo: Seq<(String, WireValue)>) -> Option<PartialChannel> {
    match spec_opt_str(oo, "name"@) {
        None => None,
        Some(name) => match spec_opt_u64(oo, "server"@) {
            None => None,
            Some(srv) => match spec_opt_str(oo, "description"@) {
                None => None,
                Some(desc) => Some(
                    PartialChannel {
                        name,
                        server: match srv {
                            Some(x) => Some(ServerId(x)),
                            None => None,
                        },
                        description: desc,
                    },
                ),
            },
        },
    }
}

/// Reads a channel patch, exactly as `spec_partial_channel_of`
/// describes it.
pub fn partial_channel_of(o: &Vec<(String, WireValue)>) -> (r: Option<PartialChannel>)
    ensures
        r == spec_partial_channel_of(o@),
{
    let name = match opt_str(o, &("name".to_owned())) {
        Some(v) => v,
        None => {
            return None;
        },
    };
    let server = match opt_u64(o, &("server".to_owned())) {
        Some(Some(x)) => Some(ServerId(x)),
        Some(None) => None,
        None => {
            return None;
        },
    };
    let description = match opt_str(o, &("description".to_owned())) {
        Some(v) => v,
        None => {
            return None;
        },
    };
    Some(PartialChannel { name, server, description })
}

/// Renders a channel patch; reading it back yields the patch.
pub fn partial_channel_fields(p: &PartialChannel) -> (o: Vec<(String, WireValue)>)
    ensures
        spec_partial_channel_of(o@) == Some(*p),
{
    let mut o: Vec<(String, WireValue)> = Vec::new();
    o.push(("name".to_owned(), opt_str_wire(&p.name)));
    match p.server {
        Some(sid) => o.push(("server".to_owned(), WireValue::UInt(sid.0))),
        None => o.push(("server".to_owned(), WireValue::Null)),
    }
    o.push(("description".to_owned(), opt_str_wire(&p.description)));
    proof {
        reveal_strlit("name");
        reveal_strlit("server");
        reveal_strlit("description");
        assert("name"@.len() == 4);
        assert("server"@.len() == 6);
        assert("description"@.len() == 11);
        lemma_obj_get3(o@, "name"@);
        lemma_obj_get3(o@, "server"@);
        lemma_obj_get3(o@, "description"@);
    }
    o
}

/// What a server patch object reads as.
pub open spec fn spec_partial_server_of(oo: Seq<(String, WireValue)>) -> Option<PartialServer> {
    match spec_opt_str(oo, "name"@) {
        None => None,
        Some(name) => match spec_opt_str(oo, "description"@) {
            None => None,
            Some(desc) => match spec_opt_u64(oo, "icon"@) {
                None => None,
                Some(icon) => Some(
                    PartialServer {
                        name,
                        description: desc,
                        icon: match icon {
                            Some(x) => Some(AttachmentId(x)),
                            None => None,
                        },
                    },
                ),
            },
        },
    }
}

/// Reads a server patch, exactly as `spec_partial_server_of`
/// describes it.
pub fn partial_server_of(o: &Vec<(String, WireValue)>) -> (r: Option<PartialServer>)
    ensures
        r == spec_partial_server_of(o@),
{
    let name = match opt_str(o, &("name".to_owned())) {
        Some(v) => v,
        None => {
            return None;
        },
    };
    let description = match opt_str(o, &("description".to_owned())) {
        Some(v) => v,
        None => {
            return None;
        },
    };
    let icon = match opt_u64(o, &("icon".to_owned())) {
        Some(Some(x)) => Some(AttachmentId(x)),
        Some(None) => None,
        None => {
            return None;
        },
    };
    Some(PartialServer { name, description, icon })
}

/// Renders a server patch; reading it back yields the patch.
pub fn partial_server_fields(p: &PartialServer) -> (o: Vec<(String, WireValue)>)
    ensures
        spec_partial_server_of(o@) == Some(*p),
{
    let mut o: Vec<(String, WireValue)> = Vec::new();
    o.push(("name".to_owned(), opt_str_wire(&p.name)));
    o.push(("description".to_owned(), opt_str_wire(&p.description)));
    match p.icon {
        Some(a) => o.push(("icon".to_owned(), WireValue::UInt(a.0))),
        None => o.push(("icon".to_owned(), WireValue::Null)),
    }
    proof {
        reveal_strlit("name");
        reveal_strlit("description");
        reveal_strlit("icon");
        assert("name"@.len() == 4);
        assert("description"@.len() == 11);
        assert("icon"@.len() == 4);
        assert("name"@[0] == 'n' && "icon"@[0] == 'i');
        lemma_obj_get3(o@, "name"@);
        lemma_obj_get3(o@, "description"@);
        lemma_obj_get3(o@, "icon"@);
    }
    o
}

/// What a member patch object reads as.
pub open spec fn spec_partial_member_of(oo: Seq<(String, WireValue)>) -> Option<PartialMember> {
    match spec_opt_str(oo, "nickname"@) {
        None => None,
        Some(nick) => match spec_opt_u64(oo, "avatar"@) {
            None => None,
            Some(av) => Some(
                PartialMember {
                    nickname: nick,
                    avatar: match av {
                        Some(x) => Some(AttachmentId(x)),
                        None => None,
                    },
                },
            ),
        },
    }
}

/// Reads a member patch, exactly as `spec_partial_member_of`
/// describes it.
pub fn partial_member_of(o: &Vec<(String, WireValue)>) -> (r: Option<PartialMember>)
    ensures
        r == spec_partial_member_of(o@),
{
    let nickname = match opt_str(o, &("nickname".to_owned())) {
        Some(v) => v,
        None => {
            return None;
        },
    };
    let avatar = match opt_u64(o, &("avatar".to_owned())) {
        Some(Some(x)) => Some(AttachmentId(x)),
        Some(None) => None,
        None => {
            return None;
        },
    };
    Some(PartialMember { nickname, avatar })
}

/// Renders a member patch; reading it back yields the patch.
pub fn partial_member_fields(p: &PartialMember) -> (o: Vec<(String, WireValue)>)
    ensures
        spec_partial_member_of(o@) == Some(*p),
{
    let mut o: Vec<(String, WireValue)> = Vec::new();
    o.push(("nickname".to_owned(), opt_str_wire(&p.nickname)));
    match p.avatar {
        Some(a) => o.push(("avatar".to_owned(), WireValue::UInt(a.0))),
        None => o.push(("avatar".to_owned(), WireValue::Null)),
    }
    proof {
        reveal_strlit("nickname");
        reveal_strlit("avatar");
        assert("nickname"@.len() == 8);
        assert("avatar"@.len() == 6);
        lemma_obj_get2(o@, "nickname"@);
        lemma_obj_get2(o@, "avatar"@);
    }
    o
}

/// What a role patch object reads as.
pub open spec fn spec_partial_role_of(oo: Seq<(String, WireValue)>) -> Option<PartialRole> {
    match spec_opt_str(oo, "name"@) {
        None => None,
        Some(name) => match spec_opt_str(oo, "colour"@) {
            None => None,
            Some(col) => Some(PartialRole { name, colour: col }),
        },
    }
}

/// Reads a role patch, exactly as `spec_partial_role_of` describes it.
pub fn partial_role_of(o: &Vec<(String, WireValue)>) -> (r: Option<PartialRole>)
    ensures
        r == spec_partial_role_of(o@),
{
    let name = match opt_str(o, &("name".to_owned())) {
        Some(v) => v,
        None => {
            return None;
        },
    };
    let colour = match opt_str(o, &("colour".to_owned())) {
        Some(v) => v,
        None => {
            return None;
        },
    };
    Some(PartialRole { name, colour })
}

/// Renders a role patch; reading it back yields the patch.
pub fn partial_role_fields(p: &PartialRole) -> (o: Vec<(String, WireValue)>)
    ensures
        spec_partial_role_of(o@) == Some(*p),
{
    let mut o: Vec<(String, WireValue)> = Vec::new();
    o.push(("name".to_owned(), opt_str_wire(&p.name)));
    o.push(("colour".to_owned(), opt_str_wire(&p.colour)));
    proof {
        reveal_strlit("name");
        reveal_strlit("colour");
        assert("name"@.len() == 4);
        assert("colour"@.len() == 6);
        lemma_obj_get2(o@, "name"@);
        lemma_obj_get2(o@, "colour"@);
    }
    o
}

/// What a message patch object reads as.
pub open spec fn spec_partial_message_of(oo: Seq<(String, WireValue)>) -> Option<PartialMessage> {
    match spec_opt_str(oo, "content"@) {
        None => None,
        Some(content) => Some(PartialMessage { content }),
    }
}

/// Reads a message patch, exactly as `spec_partial_message_of`
/// describes it.
pub fn partial_message_of(o: &Vec<(String, WireValue)>) -> (r: Option<PartialMessage>)
    ensures
        r == spec_partial_message_of(o@),
{
    let content = match opt_str(o, &("content".to_owned())) {
        Some(v) => v,
        None => {
            return None;
        },
    };
    Some(PartialMessage { content })
}

/// Renders a message patch; reading it back yields the patch.
pub fn partial_message_fields(p: &PartialMessage) -> (o: Vec<(String, WireValue)>)
    ensures
        spec_partial_message_of(o@) == Some(*p),
{
    let mut o: Vec<(String, WireValue)> = Vec::new();
    o.push(("content".to_owned(), opt_str_wire(&p.content)));
    proof {
        reveal_strlit("content");
        lemma_obj_get1(o@, "content"@);
    }
    o
}


/// What a list of user field tags folds to: the set of cleared fields;
/// an unknown tag is a structural mismatch.
pub open spec fn spec_user_clears_list(s: Seq<WireValue>) -> Option<UserClears>
    decreases s.len(),
{
    if s.len() == 0 {
        Some(UserClears { nickname: false, status: false })
    } else {
        match spec_user_clears_list(s.drop_last()) {
            None => None,
            Some(c) => match s.last() {
                WireValue::Str(t) => if t@ == "Nickname"@ {
                    Some(UserClears { nickname: true, status: c.status })
                } else if t@ == "Status"@ {
                    Some(UserClears { nickname: c.nickname, status: true })
                } else {
                    None
                },
                _ => None,
            },
        }
    }
}

/// Folds the first `n` tags, exactly as `spec_user_clears_list` says.
fn user_clears_upto(a: &Vec<WireValue>, n: usize) -> (r: Option<UserClears>)
    requires
        n <= a.len(),
    ensures
        r == spec_user_clears_list(a@.take(n as int)),
    decreases n,
{
    if n == 0 {
        proof {
            assert(a@.take(0) =~= Seq::<WireValue>::empty());
        }
        Some(UserClears { nickname: false, status: false })
    } else {
        let prev = match user_clears_upto(a, n - 1) {
            Some(c) => c,
            None => {
                proof {
                    assert(a@.take(n as int).drop_last() =~= a@.take(n as int - 1));
                }
                return None;
            },
        };
        proof {
            assert(a@.take(n as int).drop_last() =~= a@.take(n as int - 1));
            assert(a@.take(n as int).last() == a@[n as int - 1]);
        }
        match &a[n - 1] {
            WireValue::Str(t) => {
                if *t == "Nickname".to_owned() {
                    Some(UserClears { nickname: true, status: prev.status })
                } else if *t == "Status".to_owned() {
                    Some(UserClears { nickname: prev.nickname, status: true })
                } else {
                    None
                }
            },
            _ => None,
        }
    }
}

/// Folds a whole tag list, exactly as `spec_user_clears_list` says.
pub fn user_clears_list(a: &Vec<WireValue>) -> (r: Option<UserClears>)
    ensures
        r == spec_user_clears_list(a@),
{
    let n = a.len();
    let r = user_clears_upto(a, n);
    proof {
        assert(a@.take(n as int) =~= a@);
    }
    r
}

/// What a `clear` value reads as: null as no explicit clears, a tag
/// list as the folded set, anything else as a mismatch.
pub open spec fn spec_user_clear_value(w: WireValue) -> Option<Option<UserClears>> {
    match w {
        WireValue::Null => Some(None),
        WireValue::Arr(a) => match spec_user_clears_list(a@) {
            None => None,
            Some(c) => Some(Some(c)),
        },
        _ => None,
    }
}

/// The `clear` field of an update: an absent key means no explicit
/// clears, never "clear everything".
pub open spec fn spec_get_user_clears(oo: Seq<(String, WireValue)>) -> Option<Option<UserClears>> {
    match spec_obj_get(oo, "clear"@) {
        None => Some(None),
        Some(w) => spec_user_clear_value(w),
    }
}

/// Reads the `clear` field, exactly as `spec_get_user_clears` says.
pub fn get_user_clears(o: &Vec<(String, WireValue)>) -> (r: Option<Option<UserClears>>)
    ensures
        r == spec_get_user_clears(o@),
{
    match obj_get(o, &("clear".to_owned())) {
        None => Some(None),
        Some(WireValue::Null) => Some(None),
        Some(WireValue::Arr(a)) => match user_clears_list(a) {
            Some(c) => Some(Some(c)),
            None => None,
        },
        Some(_) => None,
    }
}

/// Renders a `clear` field; reading it back yields the same set.
pub fn user_clear_wire(clear: &Option<UserClears>) -> (r: WireValue)
    ensures
        spec_user_clear_value(r) == Some(*clear),
{
    let c = match clear {
        Some(c) => *c,
        None => {
            return WireValue::Null;
        },
    };
    let mut a: Vec<WireValue> = Vec::new();
    if c.nickname {
        a.push(WireValue::Str("Nickname".to_owned()));
    }
    if c.status {
        a.push(WireValue::Str("Status".to_owned()));
    }
    proof {
        reveal_with_fuel(spec_user_clears_list, 4);
        reveal_strlit("Nickname");
        reveal_strlit("Status");
        assert("Nickname"@.len() == 8);
        assert("Status"@.len() == 6);
        if a@.len() == 2 {
            assert(a@.drop_last() =~= seq![a@[0]]);
            assert(seq![a@[0]].drop_last() =~= Seq::<WireValue>::empty());
        } else if a@.len() == 1 {
            assert(a@.drop_last() =~= Seq::<WireValue>::empty());
        }
        assert(spec_user_clears_list(a@) == Some(c));
    }
    WireValue::Arr(a)
}

/// What a list of channel field tags folds to: the set of cleared fields;
/// an unknown tag is a structural mismatch.
pub open spec fn spec_channel_clears_list(s: Seq<WireValue>) -> Option<ChannelClears>
    decreases s.len(),
{
    if s.len() == 0 {
        Some(ChannelClears { server: false, description: false })
    } else {
        match spec_channel_clears_list(s.drop_last()) {
            None => None,
            Some(c) => match s.last() {
                WireValue::Str(t) => if t@ == "Server"@ {
                    Some(ChannelClears { server: true, description: c.description })
                } else if t@ == "Description"@ {
                    Some(ChannelClears { server: c.server, description: true })
                } else {
                    None
                },
                _ => None,
            },
        }
    }
}

/// Folds the first `n` tags, exactly as `spec_channel_clears_list` says.
fn channel_clears_upto(a: &Vec<WireValue>, n: usize) -> (r: Option<ChannelClears>)
    requires
        n <= a.len(),
    ensures
        r == spec_channel_clears_list(a@.take(n as int)),
    decreases n,
{
    if n == 0 {
        proof {
            assert(a@.take(0) =~= Seq::<WireValue>::empty());
        }
        Some(ChannelClears { server: false, description: false })
    } else {
        let prev = match channel_clears_upto(a, n - 1) {
            Some(c) => c,
            None => {
                proof {
                    assert(a@.take(n as int).drop_last() =~= a@.take(n as int - 1));
                }
                return None;
            },
        };
        proof {
            assert(a@.take(n as int).drop_last() =~= a@.take(n as int - 1));
            assert(a@.take(n as int).last() == a@[n as int - 1]);
        }
        match &a[n - 1] {
            WireValue::Str(t) => {
                if *t == "Server".to_owned() {
                    Some(ChannelClears { server: true, description: prev.description })
                } else if *t == "Description".to_owned() {
                    Some(ChannelClears { server: prev.server, description: true })
                } else {
                    None
                }
            },
            _ => None,
        }
    }
}

/// Folds a whole tag list, exactly as `spec_channel_clears_list` says.
pub fn channel_clears_list(a: &Vec<WireValue>) -> (r: Option<ChannelClears>)
    ensures
        r == spec_channel_clears_list(a@),
{
    let n = a.len();
    let r = channel_clears_upto(a, n);
    proof {
        assert(a@.take(n as int) =~= a@);
    }
    r
}

/// What a `clear` value reads as: null as no explicit clears, a tag
/// list as the folded set, anything else as a mismatch.
pub open spec fn spec_channel_clear_value(w: WireValue) -> Option<Option<ChannelClears>> {
    match w {
        WireValue::Null => Some(None),
        WireValue::Arr(a) => match spec_channel_clears_list(a@) {
            None => None,
            Some(c) => Some(Some(c)),
        },
        _ => None,
    }
}

/// The `clear` field of an update: an absent key means no explicit
/// clears, never "clear everything".
pub open spec fn spec_get_channel_clears(oo: Seq<(String, WireValue)>) -> Option<Option<ChannelClears>> {
    match spec_obj_get(oo, "clear"@) {
        None => Some(None),
        Some(w) => spec_channel_clear_value(w),
    }
}

/// Reads the `clear` field, exactly as `spec_get_channel_clears` says.
pub fn get_channel_clears(o: &Vec<(String, WireValue)>) -> (r: Option<Option<ChannelClears>>)
    ensures
        r == spec_get_channel_clears(o@),
{
    match obj_get(o, &("clear".to_owned())) {
        None => Some(None),
        Some(WireValue::Null) => Some(None),
        Some(WireValue::Arr(a)) => match channel_clears_list(a) {
            Some(c) => Some(Some(c)),
            None => None,
        },
        Some(_) => None,
    }
}

/// Renders a `clear` field; reading it back yields the same set.
pub fn channel_clear_wire(clear: &Option<ChannelClears>) -> (r: WireValue)
    ensures
        spec_channel_clear_value(r) == Some(*clear),
{
    let c = match clear {
        Some(c) => *c,
        None => {
            return WireValue::Null;
        },
    };
    let mut a: Vec<WireValue> = Vec::new();
    if c.server {
        a.push(WireValue::Str("Server".to_owned()));
    }
    if c.description {
        a.push(WireValue::Str("Description".to_owned()));
    }
    proof {
        reveal_with_fuel(spec_channel_clears_list, 4);
        reveal_strlit("Server");
        reveal_strlit("Description");
        assert("Server"@.len() == 6);
        assert("Description"@.len() == 11);
        if a@.len() == 2 {
            assert(a@.drop_last() =~= seq![a@[0]]);
            assert(seq![a@[0]].drop_last() =~= Seq::<WireValue>::empty());
        } else if a@.len() == 1 {
            assert(a@.drop_last() =~= Seq::<WireValue>::empty());
        }
        assert(spec_channel_clears_list(a@) == Some(c));
    }
    WireValue::Arr(a)
}

/// What a list of server field tags folds to: the set of cleared fields;
/// an unknown tag is a structural mismatch.
pub open spec fn spec_server_clears_list(s: Seq<WireValue>) -> Option<ServerClears>
    decreases s.len(),
{
    if s.len() == 0 {
        Some(ServerClears { description: false, icon: false })
    } else {
        match spec_server_clears_list(s.drop_last()) {
            None => None,
            Some(c) => match s.last() {
                WireValue::Str(t) => if t@ == "Description"@ {
                    Some(ServerClears { description: true, icon: c.icon })
                } else if t@ == "Icon"@ {
                    Some(ServerClears { description: c.description, icon: true })
                } else {
                    None
                },
                _ => None,
            },
        }
    }
}

/// Folds the first `n` tags, exactly as `spec_server_clears_list` says.
fn server_clears_upto(a: &Vec<WireValue>, n: usize) -> (r: Option<ServerClears>)
    requires
        n <= a.len(),
    ensures
        r == spec_server_clears_list(a@.take(n as int)),
    decreases n,
{
    if n == 0 {
        proof {
            assert(a@.take(0) =~= Seq::<WireValue>::empty());
        }
        Some(ServerClears { description: false, icon: false })
    } else {
        let prev = match server_clears_upto(a, n - 1) {
            Some(c) => c,
            None => {
                proof {
                    assert(a@.take(n as int).drop_last() =~= a@.take(n as int - 1));
                }
                return None;
            },
        };
        proof {
            assert(a@.take(n as int).drop_last() =~= a@.take(n as int - 1));
            assert(a@.take(n as int).last() == a@[n as int - 1]);
        }
        match &a[n - 1] {
            WireValue::Str(t) => {
                if *t == "Description".to_owned() {
                    Some(ServerClears { description: true, icon: prev.icon })
                } else if *t == "Icon".to_owned() {
                    Some(ServerClears { description: prev.description, icon: true })
                } else {
                    None
                }
            },
            _ => None,
        }
    }
}

/// Folds a whole tag list, exactly as `spec_server_clears_list` says.
pub fn server_clears_list(a: &Vec<WireValue>) -> (r: Option<ServerClears>)
    ensures
        r == spec_server_clears_list(a@),
{
    let n = a.len();
    let r = server_clears_upto(a, n);
    proof {
        assert(a@.take(n as int) =~= a@);
    }
    r
}

/// What a `clear` value reads as: null as no explicit clears, a tag
/// list as the folded set, anything else as a mismatch.
pub open spec fn spec_server_clear_value(w: WireValue) -> Option<Option<ServerClears>> {
    match w {
        WireValue::Null => Some(None),
        WireValue::Arr(a) => match spec_server_clears_list(a@) {
            None => None,
            Some(c) => Some(Some(c)),
        },
        _ => None,
    }
}

/// The `clear` field of an update: an absent key means no explicit
/// clears, never "clear everything".
pub open spec fn spec_get_server_clears(oo: Seq<(String, WireValue)>) -> Option<Option<ServerClears>> {
    match spec_obj_get(oo, "clear"@) {
        None => Some(None),
        Some(w) => spec_server_clear_value(w),
    }
}

/// Reads the `clear` field, exactly as `spec_get_server_clears` says.
pub fn get_server_clears(o: &Vec<(String, WireValue)>) -> (r: Option<Option<ServerClears>>)
    ensures
        r == spec_get_server_clears(o@),
{
    match obj_get(o, &("clear".to_owned())) {
        None => Some(None),
        Some(WireValue::Null) => Some(None),
        Some(WireValue::Arr(a)) => match server_clears_list(a) {
            Some(c) => Some(Some(c)),
            None => None,
        },
        Some(_) => None,
    }
}

/// Renders a `clear` field; reading it back yields the same set.
pub fn server_clear_wire(clear: &Option<ServerClears>) -> (r: WireValue)
    ensures
        spec_server_clear_value(r) == Some(*clear),
{
    let c = match clear {
        Some(c) => *c,
        None => {
            return WireValue::Null;
        },
    };
    let mut a: Vec<WireValue> = Vec::new();
    if c.description {
        a.push(WireValue::Str("Description".to_owned()));
    }
    if c.icon {
        a.push(WireValue::Str("Icon".to_owned()));
    }
    proof {
        reveal_with_fuel(spec_server_clears_list, 4);
        reveal_strlit("Description");
        reveal_strlit("Icon");
        assert("Description"@.len() == 11);
        assert("Icon"@.len() == 4);
        if a@.len() == 2 {
            assert(a@.drop_last() =~= seq![a@[0]]);
            assert(seq![a@[0]].drop_last() =~= Seq::<WireValue>::empty());
        } else if a@.len() == 1 {
            assert(a@.drop_last() =~= Seq::<WireValue>::empty());
        }
        assert(spec_server_clears_list(a@) == Some(c));
    }
    WireValue::Arr(a)
}

/// What a list of member field tags folds to: the set of cleared fields;
/// an unknown tag is a structural mismatch.
pub open spec fn spec_member_clears_list(s: Seq<WireValue>) -> Option<MemberClears>
    decreases s.len(),
{
    if s.len() == 0 {
        Some(MemberClears { nickname: false, avatar: false })
    } else {
        match spec_member_clears_list(s.drop_last()) {
            None => None,
            Some(c) => match s.last() {
                WireValue::Str(t) => if t@ == "Nickname"@ {
                    Some(MemberClears { nickname: true, avatar: c.avatar })
                } else if t@ == "Avatar"@ {
                    Some(MemberClears { nickname: c.nickname, avatar: true })
                } else {
                    None
                },
                _ => None,
            },
        }
    }
}

/// Folds the first `n` tags, exactly as `spec_member_clears_list` says.
fn member_clears_upto(a: &Vec<WireValue>, n: usize) -> (r: Option<MemberClears>)
    requires
        n <= a.len(),
    ensures
        r == spec_member_clears_list(a@.take(n as int)),
    decreases n,
{
    if n == 0 {
        proof {
            assert(a@.take(0) =~= Seq::<WireValue>::empty());
        }
        Some(MemberClears { nickname: false, avatar: false })
    } else {
        let prev = match member_clears_upto(a, n - 1) {
            Some(c) => c,
            None => {
                proof {
                    assert(a@.take(n as int).drop_last() =~= a@.take(n as int - 1));
                }
                return None;
            },
        };
        proof {
            assert(a@.take(n as int).drop_last() =~= a@.take(n as int - 1));
            assert(a@.take(n as int).last() == a@[n as int - 1]);
        }
        match &a[n - 1] {
            WireValue::Str(t) => {
                if *t == "Nickname".to_owned() {
                    Some(MemberClears { nickname: true, avatar: prev.avatar })
                } else if *t == "Avatar".to_owned() {
                    Some(MemberClears { nickname: prev.nickname, avatar: true })
                } else {
                    None
                }
            },
            _ => None,
        }
    }
}

/// Folds a whole tag list, exactly as `spec_member_clears_list` says.
pub fn member_clears_list(a: &Vec<WireValue>) -> (r: Option<MemberClears>)
    ensures
        r == spec_member_clears_list(a@),
{
    let n = a.len();
    let r = member_clears_upto(a, n);
    proof {
        assert(a@.take(n as int) =~= a@);
    }
    r
}

/// What a `clear` value reads as: null as no explicit clears, a tag
/// list as the folded set, anything else as a mismatch.
pub open spec fn spec_member_clear_value(w: WireValue) -> Option<Option<MemberClears>> {
    match w {
        WireValue::Null => Some(None),
        WireValue::Arr(a) => match spec_member_clears_list(a@) {
            None => None,
            Some(c) => Some(Some(c)),
        },
        _ => None,
    }
}

/// The `clear` field of an update: an absent key means no explicit
/// clears, never "clear everything".
pub open spec fn spec_get_member_clears(oo: Seq<(String, WireValue)>) -> Option<Option<MemberClears>> {
    match spec_obj_get(oo, "clear"@) {
        None => Some(None),
        Some(w) => spec_member_clear_value(w),
    }
}

/// Reads the `clear` field, exactly as `spec_get_member_clears` says.
pub fn get_member_clears(o: &Vec<(String, WireValue)>) -> (r: Option<Option<MemberClears>>)
    ensures
        r == spec_get_member_clears(o@),
{
    match obj_get(o, &("clear".to_owned())) {
        None => Some(None),
        Some(WireValue::Null) => Some(None),
        Some(WireValue::Arr(a)) => match member_clears_list(a) {
            Some(c) => Some(Some(c)),
            None => None,
        },
        Some(_) => None,
    }
}

/// Renders a `clear` field; reading it back yields the same set.
pub fn member_clear_wire(clear: &Option<MemberClears>) -> (r: WireValue)
    ensures
        spec_member_clear_value(r) == Some(*clear),
{
    let c = match clear {
        Some(c) => *c,
        None => {
            return WireValue::Null;
        },
    };
    let mut a: Vec<WireValue> = Vec::new();
    if c.nickname {
        a.push(WireValue::Str("Nickname".to_owned()));
    }
    if c.avatar {
        a.push(WireValue::Str("Avatar".to_owned()));
    }
    proof {
        reveal_with_fuel(spec_member_clears_list, 4);
        reveal_strlit("Nickname");
        reveal_strlit("Avatar");
        assert("Nickname"@.len() == 8);
        assert("Avatar"@.len() == 6);
        if a@.len() == 2 {
            assert(a@.drop_last() =~= seq![a@[0]]);
            assert(seq![a@[0]].drop_last() =~= Seq::<WireValue>::empty());
        } else if a@.len() == 1 {
            assert(a@.drop_last() =~= Seq::<WireValue>::empty());
        }
        assert(spec_member_clears_list(a@) == Some(c));
    }
    WireValue::Arr(a)
}

/// What a list of role field tags folds to: the set of cleared fields;
/// an unknown tag is a structural mismatch.
pub open spec fn spec_role_clears_list(s: Seq<WireValue>) -> Option<RoleClears>
    decreases s.len(),
{
    if s.len() == 0 {
        Some(RoleClears { colour: false })
    } else {
        match spec_role_clears_list(s.drop_last()) {
            None => None,
            Some(c) => match s.last() {
                WireValue::Str(t) => if t@ == "Colour"@ {
                    Some(RoleClears { colour: true })
                } else {
                    None
                },
                _ => None,
            },
        }
    }
}

/// Folds the first `n` tags, exactly as `spec_role_clears_list` says.
fn role_clears_upto(a: &Vec<WireValue>, n: usize) -> (r: Option<RoleClears>)
    requires
        n <= a.len(),
    ensures
        r == spec_role_clears_list(a@.take(n as int)),
    decreases n,
{
    if n == 0 {
        proof {
            assert(a@.take(0) =~= Seq::<WireValue>::empty());
        }
        Some(RoleClears { colour: false })
    } else {
        let prev = match role_clears_upto(a, n - 1) {
            Some(c) => c,
            None => {
                proof {
                    assert(a@.take(n as int).drop_last() =~= a@.take(n as int - 1));
                }
                return None;
            },
        };
        proof {
            assert(a@.take(n as int).drop_last() =~= a@.take(n as int - 1));
            assert(a@.take(n as int).last() == a@[n as int - 1]);
        }
        match &a[n - 1] {
            WireValue::Str(t) => {
                if *t == "Colour".to_owned() {
                    Some(RoleClears { colour: true })
                } else {
                    None
                }
            },
            _ => None,
        }
    }
}

/// Folds a whole tag list, exactly as `spec_role_clears_list` says.
pub fn role_clears_list(a: &Vec<WireValue>) -> (r: Option<RoleClears>)
    ensures
        r == spec_role_clears_list(a@),
{
    let n = a.len();
    let r = role_clears_upto(a, n);
    proof {
        assert(a@.take(n as int) =~= a@);
    }
    r
}

/// What a `clear` value reads as: null as no explicit clears, a tag
/// list as the folded set, anything else as a mismatch.
pub open spec fn spec_role_clear_value(w: WireValue) -> Option<Option<RoleClears>> {
    match w {
        WireValue::Null => Some(None),
        WireValue::Arr(a) => match spec_role_clears_list(a@) {
            None => None,
            Some(c) => Some(Some(c)),
        },
        _ => None,
    }
}

/// The `clear` field of an update: an absent key means no explicit
/// clears, never "clear everything".
pub open spec fn spec_get_role_clears(oo: Seq<(String, WireValue)>) -> Option<Option<RoleClears>> {
    match spec_obj_get(oo, "clear"@) {
        None => Some(None),
        Some(w) => spec_role_clear_value(w),
    }
}

/// Reads the `clear` field, exactly as `spec_get_role_clears` says.
pub fn get_role_clears(o: &Vec<(String, WireValue)>) -> (r: Option<Option<RoleClears>>)
    ensures
        r == spec_get_role_clears(o@),
{
    match obj_get(o, &("clear".to_owned())) {
        None => Some(None),
        Some(WireValue::Null) => Some(None),
        Some(WireValue::Arr(a)) => match role_clears_list(a) {
            Some(c) => Some(Some(c)),
            None => None,
        },
        Some(_) => None,
    }
}

/// Renders a `clear` field; reading it back yields the same set.
pub fn role_clear_wire(clear: &Option<RoleClears>) -> (r: WireValue)
    ensures
        spec_role_clear_value(r) == Some(*clear),
{
    let c = match clear {
        Some(c) => *c,
        None => {
            return WireValue::Null;
        },
    };
    let mut a: Vec<WireValue> = Vec::new();
    if c.colour {
        a.push(WireValue::Str("Colour".to_owned()));
    }
    proof {
        reveal_with_fuel(spec_role_clears_list, 4);
        reveal_strlit("Colour");
        assert("Colour"@.len() == 6);
        if a@.len() == 2 {
            assert(a@.drop_last() =~= seq![a@[0]]);
            assert(seq![a@[0]].drop_last() =~= Seq::<WireValue>::empty());
        } else if a@.len() == 1 {
            assert(a@.drop_last() =~= Seq::<WireValue>::empty());
        }
        assert(spec_role_clears_list(a@) == Some(c));
    }
    WireValue::Arr(a)
}

} // verus!
