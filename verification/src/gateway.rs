//! Guarded action gateway.
//!
//! Wraps each outbound privileged operation with the required-permission
//! predicate, evaluated before any network call would be issued: a guarded
//! operation either returns a ready-to-send request descriptor or fails with
//! a named error, and never partially issues the call. The surrounding
//! transport layer performs the actual request from the descriptor.

use vstd::prelude::*;

use vstd::std_specs::iter::IteratorSpec;

use crate::cache::{CacheView, InMemoryCache};
use crate::model::ChannelType;
use crate::permission::{
    spec_channel_permissions, spec_guild_permissions, PERMISSION_EMBED_LINKS,
    PERMISSION_MANAGE_CHANNELS, PERMISSION_SEND_MESSAGES, PERMISSION_SEND_MESSAGES_IN_THREADS,
    PERMISSION_USE_EXTERNAL_EMOJIS,
};

verus! {

broadcast use vstd::string::axiom_spec_iter, vstd::string::next_postcondition;

/// Error of a permission lookup.
#[derive(Clone, Copy, Debug, PartialEq, Eq, Structural)]
pub enum PermissionError {
    /// A guild, channel, role or membership required for the resolution is
    /// not cached. Callers treat this as a denial.
    CacheMiss,
}

/// Error of a guarded outbound operation.
#[derive(Clone, Copy, Debug, PartialEq, Eq, Structural)]
pub enum CacheHttpError {
    /// Computing the permissions failed.
    Permission(PermissionError),
    /// Missing permissions to send a message.
    CreateMessage,
    /// Missing permissions to create a channel.
    CreateGuildChannel,
    /// The requested channel name is invalid.
    ChannelValidation,
}

/// Ready-to-send descriptor of a message-creation request.
#[derive(Debug, PartialEq, Eq)]
pub struct CreateMessage {
    /// Channel the message goes to.
    pub channel_id: u64,
}

/// Ready-to-send descriptor of a guild-channel-creation request.
#[derive(Debug, PartialEq, Eq)]
pub struct CreateGuildChannel {
    /// Guild the channel is created in.
    pub guild_id: u64,
    /// Name of the new channel.
    pub name: String,
}

/// The outcome of guarding a message creation: the target channel id, or the
/// error naming what is missing.
pub open spec fn spec_create_message(c: CacheView, guild_id: u64, channel_id: u64) -> Result<
    u64,
    CacheHttpError,
> {
    if !c.guilds.contains_key(guild_id) {
        Err(CacheHttpError::Permission(PermissionError::CacheMiss))
    } else {
        match c.guilds[guild_id].current_member {
            None => Err(CacheHttpError::Permission(PermissionError::CacheMiss)),
            Some(m) => match spec_channel_permissions(c, guild_id, m.id, m.roles, channel_id) {
                None => Err(CacheHttpError::Permission(PermissionError::CacheMiss)),
                Some((perms, kind)) => {
                    let send = if kind.spec_is_thread() {
                        PERMISSION_SEND_MESSAGES_IN_THREADS
                    } else {
                        PERMISSION_SEND_MESSAGES
                    };
                    let needed = send | PERMISSION_USE_EXTERNAL_EMOJIS | PERMISSION_EMBED_LINKS;
                    if perms & needed == needed {
                        Ok(channel_id)
                    } else {
                        Err(CacheHttpError::CreateMessage)
                    }
                },
            },
        }
    }
}

/// The outcome of guarding a guild-channel creation, given the requested
/// channel name.
pub open spec fn spec_create_guild_channel(c: CacheView, guild_id: u64, name: Seq<char>) -> Result<
    (),
    CacheHttpError,
> {
    if !c.guilds.contains_key(guild_id) {
        Err(CacheHttpError::Permission(PermissionError::CacheMiss))
    } else {
        match c.guilds[guild_id].current_member {
            None => Err(CacheHttpError::Permission(PermissionError::CacheMiss)),
            Some(m) => match spec_guild_permissions(c, guild_id, m.id, m.roles) {
                None => Err(CacheHttpError::Permission(PermissionError::CacheMiss)),
                Some(perms) => if perms & PERMISSION_MANAGE_CHANNELS
                    != PERMISSION_MANAGE_CHANNELS {
                    Err(CacheHttpError::CreateGuildChannel)
                } else if name.len() < 1 || name.len() > 100 {
                    Err(CacheHttpError::ChannelValidation)
                } else {
                    Ok(())
                },
            },
        }
    }
}

/// Whether the character length of a string lies between one and one
/// hundred, the platform's bounds for a channel name.
fn name_length_valid(s: &str) -> (r: bool)
    ensures
        r == (1 <= s@.len() <= 100),
{
    let mut it = s.chars();
    let mut n: u64 = 0;
    loop
        invariant
            it.obeys_prophetic_iter_laws(),
            vstd::std_specs::iter::IteratorSpec::remaining(&it) =~= s@.skip(n as int),
            0 <= n <= s@.len(),
            n <= 101,
        decreases s@.len() - n,
    {
        if n > 100 {
            return false;
        }
        let ghost pre = it;
        match it.next() {
            Some(_) => {
                proof {
                    assert(vstd::std_specs::iter::IteratorSpec::remaining(&pre).drop_first()
                        =~= s@.skip(n + 1 as int));
                }
                n = n + 1;
            },
            None => {
                proof {
                    assert(s@.skip(n as int).len() == 0);
                }
                return n >= 1;
            },
        }
    }
}

/// Gateway that checks cached permissions before shaping an outbound request
/// for one guild.
#[derive(Clone, Copy, Debug, PartialEq, Eq, Structural)]
pub struct CacheHttp {
    /// Guild the guarded requests belong to.
    pub guild_id: u64,
}

impl CacheHttp {
    /// Initialize a gateway for one guild.
    pub fn new(guild_id: u64) -> (r: Self)
        ensures
            r.guild_id == guild_id,
    {
        CacheHttp { guild_id }
    }

    /// Guard a message creation: the bot must hold the channel-kind-correct
    /// "send" bit (send-in-threads for a thread, send-messages otherwise)
    /// plus the external-emoji and embed-link bits in the target channel.
    pub fn create_message(&self, cache: &InMemoryCache, channel: u64) -> (r: Result<
        CreateMessage,
        CacheHttpError,
    >)
        ensures
            match r {
                Ok(req) => spec_create_message(cache@, self.guild_id, channel) == Ok::<
                    u64,
                    CacheHttpError,
                >(req.channel_id) && req.channel_id == channel,
                Err(e) => spec_create_message(cache@, self.guild_id, channel) == Err::<
                    u64,
                    CacheHttpError,
                >(e),
            },
    {
        let guild = match cache.get_guild(self.guild_id) {
            Some(guild) => guild,
            None => {
                return Err(CacheHttpError::Permission(PermissionError::CacheMiss));
            },
        };
        let member = match &guild.current_member {
            Some(member) => member,
            None => {
                return Err(CacheHttpError::Permission(PermissionError::CacheMiss));
            },
        };
        let (permissions, kind) = match cache.channel_permissions(
            self.guild_id,
            member.id,
            &member.roles,
            channel,
        ) {
            Some(resolved) => resolved,
            None => {
                return Err(CacheHttpError::Permission(PermissionError::CacheMiss));
            },
        };
        let send_messages = if kind.is_thread() {
            PERMISSION_SEND_MESSAGES_IN_THREADS
        } else {
            PERMISSION_SEND_MESSAGES
        };
        let needed = send_messages | PERMISSION_USE_EXTERNAL_EMOJIS | PERMISSION_EMBED_LINKS;
        if permissions & needed != needed {
            return Err(CacheHttpError::CreateMessage);
        }
        Ok(CreateMessage { channel_id: channel })
    }

    /// Guard a guild-channel creation: the bot must hold the manage-channels
    /// bit at guild level (no channel exists yet, so only guild-wide bits
    /// apply), and the requested name must be between one and one hundred
    /// characters.
    pub fn create_guild_channel(&self, cache: &InMemoryCache, name: &str) -> (r: Result<
        CreateGuildChannel,
        CacheHttpError,
    >)
        ensures
            match r {
                Ok(req) => spec_create_guild_channel(cache@, self.guild_id, name@) == Ok::<
                    (),
                    CacheHttpError,
                >(()) && req.guild_id == self.guild_id && req.name@ == name@,
                Err(e) => spec_create_guild_channel(cache@, self.guild_id, name@) == Err::<
                    (),
                    CacheHttpError,
                >(e),
            },
    {
        let guild = match cache.get_guild(self.guild_id) {
            Some(guild) => guild,
            None => {
                return Err(CacheHttpError::Permission(PermissionError::CacheMiss));
            },
        };
        let member = match &guild.current_member {
            Some(member) => member,
            None => {
                return Err(CacheHttpError::Permission(PermissionError::CacheMiss));
            },
        };
        let permissions = match cache.guild_permissions(self.guild_id, member.id, &member.roles) {
            Some(permissions) => permissions,
            None => {
                return Err(CacheHttpError::Permission(PermissionError::CacheMiss));
            },
        };
        if permissions & PERMISSION_MANAGE_CHANNELS != PERMISSION_MANAGE_CHANNELS {
            return Err(CacheHttpError::CreateGuildChannel);
        }
        if !name_length_valid(name) {
            return Err(CacheHttpError::ChannelValidation);
        }
        Ok(CreateGuildChannel { guild_id: self.guild_id, name: name.to_owned() })
    }
}

} // verus!
