//! Applying inbound protocol events to the cached client state.
//!
//! Full-entity events establish or replace the cached copy wholesale;
//! update events apply a partial patch plus an explicit clear set to
//! the cached snapshot; delete events remove it.  Events that carry no
//! cacheable entity state (errors, acknowledgements, typing and
//! membership notifications, and role events, whose state lives inside
//! their server) leave the cache untouched.  A failed patch
//! application mutates nothing.

use vstd::prelude::*;

use crate::cache::{seq_commit, seq_remove, CacheEntity, CachePort};
use crate::entity::{
    Channel, ChannelClears, Member, MemberClears, Message, PartialChannel, PartialMember,
    PartialMessage, PartialServer, PartialUser, Server, ServerClears, User, UserClears,
};
use crate::events::ServerToClientEvent;
use crate::model::ClientState;
use crate::patch::{
    apply_channel_patch, apply_member_patch, apply_message_patch, apply_server_patch,
    apply_user_patch, patched_field, OrphanPatchError,
};

verus! {

/// One commit, seen at the port: a write when a cache is configured,
/// a no-op otherwise.
pub open spec fn port_committed<E: CacheEntity>(
    pre: CachePort<E>,
    post: CachePort<E>,
    e: E,
) -> bool {
    &&& post.configured() == pre.configured()
    &&& pre.configured() ==> post.contents() == seq_commit(pre.contents(), e)
    &&& !pre.configured() ==> post == pre
}

/// One removal, seen at the port.
pub open spec fn port_removed<E: CacheEntity>(
    pre: CachePort<E>,
    post: CachePort<E>,
    k: u64,
) -> bool {
    &&& post.configured() == pre.configured()
    &&& pre.configured() ==> post.contents() == seq_remove(pre.contents(), k)
    &&& !pre.configured() ==> post == pre
}

/// The entries after committing a whole batch, in order.
pub open spec fn seq_commit_all<E: CacheEntity>(s: Seq<E>, items: Seq<E>) -> Seq<E>
    decreases items.len(),
{
    if items.len() == 0 {
        s
    } else {
        seq_commit(seq_commit_all(s, items.drop_last()), items.last())
    }
}

/// A whole batch of commits, seen at the port.
pub open spec fn port_committed_all<E: CacheEntity>(
    pre: CachePort<E>,
    post: CachePort<E>,
    items: Seq<E>,
) -> bool {
    &&& post.configured() == pre.configured()
    &&& pre.configured() ==> post.contents() == seq_commit_all(pre.contents(), items)
    &&& !pre.configured() ==> post == pre
}

/// Commits every entity of a batch, in order.
pub fn commit_all<E: CacheEntity>(port: &mut CachePort<E>, items: &Vec<E>)
    ensures
        port_committed_all(*old(port), *final(port), items@),
{
    let n = items.len();
    let mut i: usize = 0;
    while i < n
        invariant
            n == items.len(),
            0 <= i <= n,
            port.configured() == old(port).configured(),
            old(port).configured() ==> port.contents() == seq_commit_all(
                old(port).contents(),
                items@.take(i as int),
            ),
            !old(port).configured() ==> *port == *old(port),
        decreases n - i,
    {
        proof {
            assert(items@.take(i as int + 1).drop_last() =~= items@.take(i as int));
            assert(items@.take(i as int + 1).last() == items@[i as int]);
        }
        port.commit(items[i].duplicate());
        i += 1;
    }
    proof {
        assert(items@.take(n as int) =~= items@);
    }
}

/// What a user patch plus clear set makes of a cached user.
pub open spec fn spec_apply_user(b: User, p: PartialUser, c: UserClears) -> User {
    User {
        id: b.id,
        username: if p.username is Some {
            p.username->Some_0
        } else {
            b.username
        },
        nickname: patched_field(b.nickname, p.nickname, c.nickname),
        status: patched_field(b.status, p.status, c.status),
    }
}

/// What a channel patch plus clear set makes of a cached channel.
pub open spec fn spec_apply_channel(b: Channel, p: PartialChannel, c: ChannelClears) -> Channel {
    Channel {
        id: b.id,
        name: if p.name is Some {
            p.name->Some_0
        } else {
            b.name
        },
        server: patched_field(b.server, p.server, c.server),
        description: patched_field(b.description, p.description, c.description),
    }
}

/// What a server patch plus clear set makes of a cached server.
pub open spec fn spec_apply_server(b: Server, p: PartialServer, c: ServerClears) -> Server {
    Server {
        id: b.id,
        name: if p.name is Some {
            p.name->Some_0
        } else {
            b.name
        },
        description: patched_field(b.description, p.description, c.description),
        icon: patched_field(b.icon, p.icon, c.icon),
    }
}

/// What a member patch plus clear set makes of a cached member.
pub open spec fn spec_apply_member(b: Member, p: PartialMember, c: MemberClears) -> Member {
    Member {
        id: b.id,
        nickname: patched_field(b.nickname, p.nickname, c.nickname),
        avatar: patched_field(b.avatar, p.avatar, c.avatar),
    }
}

/// What a message patch makes of a cached message.
pub open spec fn spec_apply_message(b: Message, p: PartialMessage) -> Message {
    Message {
        id: b.id,
        channel: b.channel,
        author: b.author,
        content: if p.content is Some {
            p.content->Some_0
        } else {
            b.content
        },
    }
}

/// What applying one inbound event does to the cached state: which
/// partition changes, how, and exactly when an orphan patch is
/// reported (in which case nothing changes).
pub open spec fn apply_effect(
    pre: ClientState,
    post: ClientState,
    ev: ServerToClientEvent,
    r: Result<(), OrphanPatchError>,
) -> bool {
    match ev {
        ServerToClientEvent::Ready { event } => {
            &&& r is Ok
            &&& port_committed_all(pre.users, post.users, event.users@)
            &&& port_committed_all(pre.servers, post.servers, event.servers@)
            &&& port_committed_all(pre.channels, post.channels, event.channels@)
            &&& port_committed_all(pre.members, post.members, event.members@)
            &&& post.messages == pre.messages
        },
        ServerToClientEvent::Message { message } => {
            &&& r is Ok
            &&& port_committed(pre.messages, post.messages, message)
            &&& post.users == pre.users
            &&& post.servers == pre.servers
            &&& post.channels == pre.channels
            &&& post.members == pre.members
        },
        ServerToClientEvent::MessageUpdate { id, channel, data } => {
            &&& pre.messages.lookup(id.0) is None ==> r is Err && post == pre
            &&& pre.messages.lookup(id.0) matches Some(b) ==> {
                &&& r is Ok
                &&& port_committed(pre.messages, post.messages, spec_apply_message(b, data))
                &&& post.users == pre.users
                &&& post.servers == pre.servers
                &&& post.channels == pre.channels
                &&& post.members == pre.members
            }
        },
        ServerToClientEvent::MessageDelete { id, channel } => {
            &&& r is Ok
            &&& port_removed(pre.messages, post.messages, id.0)
            &&& post.users == pre.users
            &&& post.servers == pre.servers
            &&& post.channels == pre.channels
            &&& post.members == pre.members
        },
        ServerToClientEvent::ChannelCreate { channel } => {
            &&& r is Ok
            &&& port_committed(pre.channels, post.channels, channel)
            &&& post.users == pre.users
            &&& post.servers == pre.servers
            &&& post.members == pre.members
            &&& post.messages == pre.messages
        },
        ServerToClientEvent::ChannelUpdate { id, data, clear } => {
            let c = if clear is Some {
                clear->Some_0
            } else {
                ChannelClears { server: false, description: false }
            };
            &&& pre.channels.lookup(id.0) is None ==> r is Err && post == pre
            &&& pre.channels.lookup(id.0) matches Some(b) ==> {
                &&& r is Ok
                &&& port_committed(pre.channels, post.channels, spec_apply_channel(b, data, c))
                &&& post.users == pre.users
                &&& post.servers == pre.servers
                &&& post.members == pre.members
                &&& post.messages == pre.messages
            }
        },
        ServerToClientEvent::ChannelDelete { id } => {
            &&& r is Ok
            &&& port_removed(pre.channels, post.channels, id.0)
            &&& post.users == pre.users
            &&& post.servers == pre.servers
            &&& post.members == pre.members
            &&& post.messages == pre.messages
        },
        ServerToClientEvent::ServerUpdate { id, data, clear } => {
            let c = if clear is Some {
                clear->Some_0
            } else {
                ServerClears { description: false, icon: false }
            };
            &&& pre.servers.lookup(id.0) is None ==> r is Err && post == pre
            &&& pre.servers.lookup(id.0) matches Some(b) ==> {
                &&& r is Ok
                &&& port_committed(pre.servers, post.servers, spec_apply_server(b, data, c))
                &&& post.users == pre.users
                &&& post.channels == pre.channels
                &&& post.members == pre.members
                &&& post.messages == pre.messages
            }
        },
        ServerToClientEvent::ServerDelete { id } => {
            &&& r is Ok
            &&& port_removed(pre.servers, post.servers, id.0)
            &&& post.users == pre.users
            &&& post.channels == pre.channels
            &&& post.members == pre.members
            &&& post.messages == pre.messages
        },
        ServerToClientEvent::ServerMemberUpdate { id, data, clear } => {
            let c = if clear is Some {
                clear->Some_0
            } else {
                MemberClears { nickname: false, avatar: false }
            };
            &&& pre.members.lookup(id.0) is None ==> r is Err && post == pre
            &&& pre.members.lookup(id.0) matches Some(b) ==> {
                &&& r is Ok
                &&& port_committed(pre.members, post.members, spec_apply_member(b, data, c))
                &&& post.users == pre.users
                &&& post.servers == pre.servers
                &&& post.channels == pre.channels
                &&& post.messages == pre.messages
            }
        },
        ServerToClientEvent::UserUpdate { id, data, clear } => {
            let c = if clear is Some {
                clear->Some_0
            } else {
                UserClears { nickname: false, status: false }
            };
            &&& pre.users.lookup(id.0) is None ==> r is Err && post == pre
            &&& pre.users.lookup(id.0) matches Some(b) ==> {
                &&& r is Ok
                &&& port_committed(pre.users, post.users, spec_apply_user(b, data, c))
                &&& post.servers == pre.servers
                &&& post.channels == pre.channels
                &&& post.members == pre.members
                &&& post.messages == pre.messages
            }
        },
        _ => post == pre && r is Ok,
    }
}

/// Applies one inbound event to the cached state, in the order events
/// arrive; exactly the update events whose id has no cached snapshot
/// report an orphan patch, and mutate nothing.
pub fn apply_server_event(state: &mut ClientState, ev: &ServerToClientEvent) -> (r: Result<
    (),
    OrphanPatchError,
>)
    ensures
        apply_effect(*old(state), *final(state), *ev, r),
{
    match ev {
        ServerToClientEvent::Ready { event } => {
            commit_all(&mut state.users, &event.users);
            commit_all(&mut state.servers, &event.servers);
            commit_all(&mut state.channels, &event.channels);
            commit_all(&mut state.members, &event.members);
            Ok(())
        },
        ServerToClientEvent::Message { message } => {
            state.messages.commit(message.duplicate());
            Ok(())
        },
        ServerToClientEvent::MessageUpdate { id, channel, data } => {
            let cur = state.messages.get(id.0);
            match apply_message_patch(cur, data) {
                Ok(m) => {
                    state.messages.commit(m);
                    Ok(())
                },
                Err(er) => Err(er),
            }
        },
        ServerToClientEvent::MessageDelete { id, channel } => {
            state.messages.remove(id.0);
            Ok(())
        },
        ServerToClientEvent::ChannelCreate { channel } => {
            state.channels.commit(channel.duplicate());
            Ok(())
        },
        ServerToClientEvent::ChannelUpdate { id, data, clear } => {
            let cur = state.channels.get(id.0);
            let clears = match clear {
                Some(c) => *c,
                None => ChannelClears::none(),
            };
            match apply_channel_patch(cur, data, clears) {
                Ok(c) => {
                    state.channels.commit(c);
                    Ok(())
                },
                Err(er) => Err(er),
            }
        },
        ServerToClientEvent::ChannelDelete { id } => {
            state.channels.remove(id.0);
            Ok(())
        },
        ServerToClientEvent::ServerUpdate { id, data, clear } => {
            let cur = state.servers.get(id.0);
            let clears = match clear {
                Some(c) => *c,
                None => ServerClears::none(),
            };
            match apply_server_patch(cur, data, clears) {
                Ok(s) => {
                    state.servers.commit(s);
                    Ok(())
                },
                Err(er) => Err(er),
            }
        },
        ServerToClientEvent::ServerDelete { id } => {
            state.servers.remove(id.0);
            Ok(())
        },
        ServerToClientEvent::ServerMemberUpdate { id, data, clear } => {
            let cur = state.members.get(id.0);
            let clears = match clear {
                Some(c) => *c,
                None => MemberClears::none(),
            };
            match apply_member_patch(cur, data, clears) {
                Ok(m) => {
                    state.members.commit(m);
                    Ok(())
                },
                Err(er) => Err(er),
            }
        },
        ServerToClientEvent::UserUpdate { id, data, clear } => {
            let cur = state.users.get(id.0);
            let clears = match clear {
                Some(c) => *c,
                None => UserClears::none(),
            };
            match apply_user_patch(cur, data, clears) {
                Ok(u) => {
                    state.users.commit(u);
                    Ok(())
                },
                Err(er) => Err(er),
            }
        },
        _ => Ok(()),
    }
}

} // verus!
