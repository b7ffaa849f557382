//! Applying a `(Partial<Entity>, clear set)` pair onto a cached entity.
//!
//! The protocol leaves the order of a patch write and a clear of the
//! same field open; the behaviour fixed here is that clears are applied
//! after the patch, so clearing wins on conflict.  Fields named in
//! neither the patch nor the clear set are left unchanged, and a patch
//! without a prior snapshot is a caller error (`OrphanPatchError`): no
//! defaults are fabricated for fields never observed.

use vstd::prelude::*;

use crate::entity::{
    Channel, ChannelClears, Member, MemberClears, Message, PartialChannel, PartialMember,
    PartialMessage, PartialRole, PartialServer, PartialUser, Role, RoleClears, Server,
    ServerClears, User, UserClears,
};

verus! {

/// An update arrived for an entity with no prior cached or fetched
/// snapshot.
#[derive(Clone, Copy, PartialEq, Eq, Structural, Debug)]
pub struct OrphanPatchError;

/// The value of one patched, clearable field: the clear wins over the
/// patch, the patch wins over the base, and an untouched field keeps
/// its base value.
pub open spec fn patched_field<T>(base: Option<T>, patch: Option<T>, cleared: bool) -> Option<T> {
    if cleared {
        None
    } else if patch is Some {
        patch
    } else {
        base
    }
}

/// Executable counterpart of `patched_field` for string fields.
fn apply_opt_string(base: Option<String>, patch: &Option<String>, cleared: bool) -> (r: Option<
    String,
>)
    ensures
        r == patched_field(base, *patch, cleared),
{
    if cleared {
        None
    } else {
        match patch {
            Some(s) => Some(s.clone()),
            None => base,
        }
    }
}

/// Applies `patch` then `clears` onto a cached user, or reports an
/// orphan patch when no snapshot exists.
pub fn apply_user_patch(existing: Option<User>, patch: &PartialUser, clears: UserClears) -> (r:
    Result<User, OrphanPatchError>)
    ensures
        r is Err <==> existing is None,
        existing is Some ==> (r matches Ok(out) && {
            let base = existing->Some_0;
            &&& out.id == base.id
            &&& out.username == (if patch.username is Some {
                patch.username->Some_0
            } else {
                base.username
            })
            &&& out.nickname == patched_field(base.nickname, patch.nickname, clears.nickname)
            &&& out.status == patched_field(base.status, patch.status, clears.status)
        }),
{
    let base = match existing {
        Some(b) => b,
        None => {
            return Err(OrphanPatchError);
        },
    };
    let username = match &patch.username {
        Some(s) => s.clone(),
        None => base.username,
    };
    let nickname = apply_opt_string(base.nickname, &patch.nickname, clears.nickname);
    let status = apply_opt_string(base.status, &patch.status, clears.status);
    Ok(User { id: base.id, username, nickname, status })
}

/// Applies `patch` then `clears` onto a cached channel, or reports an
/// orphan patch when no snapshot exists.
pub fn apply_channel_patch(
    existing: Option<Channel>,
    patch: &PartialChannel,
    clears: ChannelClears,
) -> (r: Result<Channel, OrphanPatchError>)
    ensures
        r is Err <==> existing is None,
        existing is Some ==> (r matches Ok(out) && {
            let base = existing->Some_0;
            &&& out.id == base.id
            &&& out.name == (if patch.name is Some {
                patch.name->Some_0
            } else {
                base.name
            })
            &&& out.server == patched_field(base.server, patch.server, clears.server)
            &&& out.description == patched_field(
                base.description,
                patch.description,
                clears.description,
            )
        }),
{
    let base = match existing {
        Some(b) => b,
        None => {
            return Err(OrphanPatchError);
        },
    };
    let name = match &patch.name {
        Some(s) => s.clone(),
        None => base.name,
    };
    let server = if clears.server {
        None
    } else {
        match patch.server {
            Some(s) => Some(s),
            None => base.server,
        }
    };
    let description = apply_opt_string(base.description, &patch.description, clears.description);
    Ok(Channel { id: base.id, name, server, description })
}

/// Applies `patch` then `clears` onto a cached server, or reports an
/// orphan patch when no snapshot exists.
pub fn apply_server_patch(
    existing: Option<Server>,
    patch: &PartialServer,
    clears: ServerClears,
) -> (r: Result<Server, OrphanPatchError>)
    ensures
        r is Err <==> existing is None,
        existing is Some ==> (r matches Ok(out) && {
            let base = existing->Some_0;
            &&& out.id == base.id
            &&& out.name == (if patch.name is Some {
                patch.name->Some_0
            } else {
                base.name
            })
            &&& out.description == patched_field(
                base.description,
                patch.description,
                clears.description,
            )
            &&& out.icon == patched_field(base.icon, patch.icon, clears.icon)
        }),
{
    let base = match existing {
        Some(b) => b,
        None => {
            return Err(OrphanPatchError);
        },
    };
    let name = match &patch.name {
        Some(s) => s.clone(),
        None => base.name,
    };
    let description = apply_opt_string(base.description, &patch.description, clears.description);
    let icon = if clears.icon {
        None
    } else {
        match patch.icon {
            Some(a) => Some(a),
            None => base.icon,
        }
    };
    Ok(Server { id: base.id, name, description, icon })
}

/// Applies `patch` then `clears` onto a cached member, or reports an
/// orphan patch when no snapshot exists.
pub fn apply_member_patch(
    existing: Option<Member>,
    patch: &PartialMember,
    clears: MemberClears,
) -> (r: Result<Member, OrphanPatchError>)
    ensures
        r is Err <==> existing is None,
        existing is Some ==> (r matches Ok(out) && {
            let base = existing->Some_0;
            &&& out.id == base.id
            &&& out.nickname == patched_field(base.nickname, patch.nickname, clears.nickname)
            &&& out.avatar == patched_field(base.avatar, patch.avatar, clears.avatar)
        }),
{
    let base = match existing {
        Some(b) => b,
        None => {
            return Err(OrphanPatchError);
        },
    };
    let nickname = apply_opt_string(base.nickname, &patch.nickname, clears.nickname);
    let avatar = if clears.avatar {
        None
    } else {
        match patch.avatar {
            Some(a) => Some(a),
            None => base.avatar,
        }
    };
    Ok(Member { id: base.id, nickname, avatar })
}

/// Applies `patch` then `clears` onto a role, or reports an orphan
/// patch when no snapshot exists.
pub fn apply_role_patch(existing: Option<Role>, patch: &PartialRole, clears: RoleClears) -> (r:
    Result<Role, OrphanPatchError>)
    ensures
        r is Err <==> existing is None,
        existing is Some ==> (r matches Ok(out) && {
            let base = existing->Some_0;
            &&& out.name == (if patch.name is Some {
                patch.name->Some_0
            } else {
                base.name
            })
            &&& out.colour == patched_field(base.colour, patch.colour, clears.colour)
        }),
{
    let base = match existing {
        Some(b) => b,
        None => {
            return Err(OrphanPatchError);
        },
    };
    let name = match &patch.name {
        Some(s) => s.clone(),
        None => base.name,
    };
    let colour = apply_opt_string(base.colour, &patch.colour, clears.colour);
    Ok(Role { name, colour })
}

/// Applies `patch` onto a cached message, or reports an orphan patch
/// when no snapshot exists.  Message updates carry no clear list.
pub fn apply_message_patch(existing: Option<Message>, patch: &PartialMessage) -> (r: Result<
    Message,
    OrphanPatchError,
>)
    ensures
        r is Err <==> existing is None,
        existing is Some ==> (r matches Ok(out) && {
            let base = existing->Some_0;
            &&& out.id == base.id
            &&& out.channel == base.channel
            &&& out.author == base.author
            &&& out.content == (if patch.content is Some {
                patch.content->Some_0
            } else {
                base.content
            })
        }),
{
    let base = match existing {
        Some(b) => b,
        None => {
            return Err(OrphanPatchError);
        },
    };
    let content = match &patch.content {
        Some(s) => s.clone(),
        None => base.content,
    };
    Ok(Message { id: base.id, channel: base.channel, author: base.author, content })
}

} // verus!
