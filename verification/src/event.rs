//! Event projector.
//!
//! One handler per inbound gateway event kind; each handler applies the event
//! to the [`InMemoryCache`] and returns the previous (or, for overwrites, the
//! new) value when callers need a diff. Handlers never fail: events that
//! reference unknown ids degrade to no-ops, preserving availability over
//! strict consistency.
//!
//! Non-guild channel variants (direct messages) and member events about other
//! users than the bot itself are ignored; this filtering is part of the
//! contract, not an error path.
//!
//! A channel or role event that references a guild that is not cached still
//! leaves a well-defined entity-store state: the entity is cached (or
//! removed) while the membership-set side is a no-op. Such orphaned entries
//! are retained until a later guild event overwrites or removes them — an
//! accepted eventual-consistency artifact of the at-least-once, out-of-order
//! stream.

use vstd::prelude::*;

use crate::cache::{CacheView, InMemoryCache};
use crate::model::{
    CachedChannel, CachedCategoryChannel, CachedGuild, CachedRole, CachedTextChannel, CachedThread,
    CategoryChannelView, ChannelType, ChannelView, CurrentMember, GuildView, MemberView,
    PermissionOverwrite, RoleView, TextChannelView, ThreadView, copy_ids,
};

verus! {

/// Update the cache based on event data.
///
/// This trait is implemented for all gateway event types that are used to
/// keep the cache up-to-date. The per-event `apply` methods carry the exact
/// contracts; `update` forwards to them.
pub trait UpdateCache {
    /// Type of the returned diff value.
    type Output;

    /// Update the cache based on event data.
    ///
    /// If an old value of the updated entry is present in the cache, it will
    /// be returned.
    fn update(&self, cache: &mut InMemoryCache) -> Self::Output;
}

/// Channel data carried by a channel event.
pub struct ChannelPayload {
    /// Id of the channel.
    pub id: u64,
    /// Id of the owning guild, when the platform provided one.
    pub guild_id: Option<u64>,
    /// Kind of the channel.
    pub kind: ChannelType,
    /// Name of the channel.
    pub name: String,
    /// Parent channel or category, if any.
    pub parent_id: Option<u64>,
    /// Sorting position of the channel.
    pub position: i16,
    /// Permission overwrites of the channel.
    pub permission_overwrites: Vec<PermissionOverwrite>,
    /// Amount of seconds a user has to wait between two messages.
    pub rate_limit_per_user: Option<u16>,
}

/// Role data carried by a role event or nested in a guild payload.
pub struct RolePayload {
    /// Id of the role.
    pub id: u64,
    /// Permission bitmask of the role.
    pub permissions: u64,
    /// Position of the role.
    pub position: i64,
    /// Color of the role.
    pub color: u32,
    /// Whether the role can be mentioned.
    pub mentionable: bool,
}

/// Guild data carried by a guild-create event, with its nested channels and
/// roles.
pub struct GuildPayload {
    /// Id of the guild.
    pub id: u64,
    /// Name of the guild.
    pub name: String,
    /// Icon hash of the guild, if any.
    pub icon: Option<String>,
    /// Id of the guild owner.
    pub owner_id: u64,
    /// Whether the guild is unavailable.
    pub unavailable: bool,
    /// Channels of the guild.
    pub channels: Vec<ChannelPayload>,
    /// Roles of the guild.
    pub roles: Vec<RolePayload>,
}

/// A channel as delivered by the gateway: either a guild channel or a
/// direct-message channel, which is never cached.
pub enum IncomingChannel {
    /// A channel that belongs to a guild.
    Guild(ChannelPayload),
    /// A direct-message channel; ignored by the projector.
    Private,
}

/// The cached form of a channel payload, if the payload can be cached.
///
/// Text and announcement channels cache as text channels, categories as
/// categories, and threads as threads; a thread without a parent and every
/// other kind cannot be cached.
pub open spec fn spec_channel_from_payload(p: ChannelPayload, guild_id: u64) -> Option<
    ChannelView,
> {
    if p.kind == ChannelType::GuildText || p.kind == ChannelType::GuildNews {
        Some(
            ChannelView::Text(
                TextChannelView {
                    id: p.id,
                    guild_id,
                    name: p.name@,
                    parent_id: p.parent_id,
                    position: p.position,
                    permission_overwrites: p.permission_overwrites@,
                    rate_limit_per_user: p.rate_limit_per_user,
                },
            ),
        )
    } else if p.kind == ChannelType::GuildCategory {
        Some(
            ChannelView::Category(
                CategoryChannelView {
                    id: p.id,
                    guild_id,
                    name: p.name@,
                    position: p.position,
                    permission_overwrites: p.permission_overwrites@,
                },
            ),
        )
    } else if p.kind.spec_is_thread() {
        match p.parent_id {
            Some(parent) => Some(
                ChannelView::Thread(
                    ThreadView {
                        id: p.id,
                        guild_id,
                        name: p.name@,
                        private: p.kind == ChannelType::GuildPrivateThread,
                        parent_id: parent,
                        rate_limit_per_user: p.rate_limit_per_user,
                    },
                ),
            ),
            None => None,
        }
    } else {
        None
    }
}

/// Convert a channel payload into its cached form, if it has one.
pub fn channel_from_payload(p: &ChannelPayload, guild_id: u64) -> (r: Option<CachedChannel>)
    ensures
        match r {
            Some(c) => spec_channel_from_payload(*p, guild_id) == Some(c@),
            None => spec_channel_from_payload(*p, guild_id) is None,
        },
{
    match p.kind {
        ChannelType::GuildText | ChannelType::GuildNews => Some(
            CachedChannel::Text(
                CachedTextChannel {
                    id: p.id,
                    guild_id,
                    name: p.name.clone(),
                    parent_id: p.parent_id,
                    position: p.position,
                    permission_overwrites: crate::model::copy_overwrites(
                        &p.permission_overwrites,
                    ),
                    rate_limit_per_user: p.rate_limit_per_user,
                },
            ),
        ),
        ChannelType::GuildCategory => Some(
            CachedChannel::Category(
                CachedCategoryChannel {
                    id: p.id,
                    guild_id,
                    name: p.name.clone(),
                    position: p.position,
                    permission_overwrites: crate::model::copy_overwrites(
                        &p.permission_overwrites,
                    ),
                },
            ),
        ),
        ChannelType::GuildPublicThread | ChannelType::GuildPrivateThread
            | ChannelType::GuildNewsThread => match p.parent_id {
            Some(parent) => Some(
                CachedChannel::Thread(
                    CachedThread {
                        id: p.id,
                        guild_id,
                        name: p.name.clone(),
                        private: matches!(p.kind, ChannelType::GuildPrivateThread),
                        parent_id: parent,
                        rate_limit_per_user: p.rate_limit_per_user,
                    },
                ),
            ),
            None => None,
        },
        ChannelType::Other => None,
    }
}

/// The cached form of a role payload.
pub open spec fn spec_role_from_payload(p: RolePayload, guild_id: u64) -> RoleView {
    RoleView {
        id: p.id,
        guild_id,
        permissions: p.permissions,
        position: p.position,
        color: p.color,
        mentionable: p.mentionable,
    }
}

/// Convert a role payload into its cached form.
pub fn role_from_payload(p: &RolePayload, guild_id: u64) -> (r: CachedRole)
    ensures
        r@ == spec_role_from_payload(*p, guild_id),
{
    CachedRole {
        id: p.id,
        guild_id,
        permissions: p.permissions,
        position: p.position,
        color: p.color,
        mentionable: p.mentionable,
    }
}

/// Whether an id list contains the given id.
pub(crate) fn contains_id(v: &Vec<u64>, x: u64) -> (r: bool)
    ensures
        r == v@.contains(x),
{
    let mut i: usize = 0;
    while i < v.len()
        invariant
            i <= v.len(),
            forall|j: int| 0 <= j < i ==> v@[j] != x,
        decreases v.len() - i,
    {
        if v[i] == x {
            return true;
        }
        i = i + 1;
    }
    false
}

/// An id list after adding an id used as a set member: unchanged when the id
/// is already present, extended by it otherwise.
pub open spec fn spec_insert_id(s: Seq<u64>, x: u64) -> Seq<u64> {
    if s.contains(x) {
        s
    } else {
        s.push(x)
    }
}

/// An id list after removing every occurrence of an id, keeping the order of
/// the rest.
pub open spec fn spec_remove_id(s: Seq<u64>, x: u64) -> Seq<u64>
    decreases s.len(),
{
    if s.len() == 0 {
        s
    } else {
        let rest = spec_remove_id(s.drop_last(), x);
        if s.last() == x {
            rest
        } else {
            rest.push(s.last())
        }
    }
}

/// Add an id to an id list used as a set: a no-op when already present.
fn insert_id(v: &mut Vec<u64>, x: u64)
    ensures
        final(v)@ == spec_insert_id(old(v)@, x),
{
    if !contains_id(v, x) {
        v.push(x);
    }
}

/// Remove an id from an id list used as a set: a no-op when absent.
pub(crate) fn remove_id(v: &mut Vec<u64>, x: u64)
    ensures
        final(v)@ == spec_remove_id(old(v)@, x),
{
    let mut out: Vec<u64> = Vec::new();
    let mut i: usize = 0;
    while i < v.len()
        invariant
            i <= v.len(),
            v@ == old(v)@,
            out@ == spec_remove_id(v@.take(i as int), x),
        decreases v.len() - i,
    {
        proof {
            assert(v@.take(i + 1 as int) =~= v@.take(i as int).push(v@[i as int]));
            assert(v@.take(i + 1 as int).drop_last() =~= v@.take(i as int));
        }
        if v[i] != x {
            out.push(v[i]);
        }
        i = i + 1;
    }
    proof {
        assert(v@.take(v@.len() as int) =~= v@);
    }
    *v = out;
}

/// The cache after adding a channel id to a guild's membership set.
///
/// A no-op when the guild is not cached.
pub open spec fn spec_add_guild_channel(c: CacheView, guild_id: u64, channel_id: u64) -> CacheView {
    if !c.guilds.contains_key(guild_id) {
        c
    } else {
        CacheView {
            guilds: c.guilds.insert(
                guild_id,
                GuildView {
                    channels: spec_insert_id(c.guilds[guild_id].channels, channel_id),
                    ..c.guilds[guild_id]
                },
            ),
            ..c
        }
    }
}

/// The cache after removing a channel id from a guild's membership set.
///
/// A no-op when the guild is not cached.
pub open spec fn spec_remove_guild_channel(
    c: CacheView,
    guild_id: u64,
    channel_id: u64,
) -> CacheView {
    if !c.guilds.contains_key(guild_id) {
        c
    } else {
        CacheView {
            guilds: c.guilds.insert(
                guild_id,
                GuildView {
                    channels: spec_remove_id(c.guilds[guild_id].channels, channel_id),
                    ..c.guilds[guild_id]
                },
            ),
            ..c
        }
    }
}

/// The cache after adding a role id to a guild's membership set.
///
/// A no-op when the guild is not cached.
pub open spec fn spec_add_guild_role(c: CacheView, guild_id: u64, role_id: u64) -> CacheView {
    if !c.guilds.contains_key(guild_id) {
        c
    } else {
        CacheView {
            guilds: c.guilds.insert(
                guild_id,
                GuildView {
                    roles: spec_insert_id(c.guilds[guild_id].roles, role_id),
                    ..c.guilds[guild_id]
                },
            ),
            ..c
        }
    }
}

/// The cache after removing a role id from a guild's membership set.
///
/// A no-op when the guild is not cached.
pub open spec fn spec_remove_guild_role(c: CacheView, guild_id: u64, role_id: u64) -> CacheView {
    if !c.guilds.contains_key(guild_id) {
        c
    } else {
        CacheView {
            guilds: c.guilds.insert(
                guild_id,
                GuildView {
                    roles: spec_remove_id(c.guilds[guild_id].roles, role_id),
                    ..c.guilds[guild_id]
                },
            ),
            ..c
        }
    }
}

/// Store a guild under an explicit key, leaving the other stores untouched.
fn write_guild(cache: &mut InMemoryCache, guild_id: u64, guild: CachedGuild)
    ensures
        final(cache)@.current_user == old(cache)@.current_user,
        final(cache)@.guilds == old(cache)@.guilds.insert(guild_id, guild@),
        final(cache)@.channels == old(cache)@.channels,
        final(cache)@.roles == old(cache)@.roles,
{
    let ghost m = cache.guilds@;
    let ghost gexec = guild;
    cache.guilds.insert(guild_id, guild);
    proof {
        crate::cache::lemma_guild_map_values_insert(m, guild_id, gexec);
        assert(cache@.guilds =~= old(cache)@.guilds.insert(guild_id, gexec@));
    }
}

/// Add a channel id to a guild's membership set.
fn add_guild_channel(cache: &mut InMemoryCache, guild_id: u64, channel_id: u64)
    ensures
        final(cache)@ == spec_add_guild_channel(old(cache)@, guild_id, channel_id),
{
    let mut guild = match cache.guilds.get(&guild_id) {
        Some(guild) => guild.clone(),
        None => {
            return ;
        },
    };
    insert_id(&mut guild.channels, channel_id);
    proof {
        assert(guild@ =~= (GuildView {
            channels: spec_insert_id(old(cache)@.guilds[guild_id].channels, channel_id),
            ..old(cache)@.guilds[guild_id]
        }));
    }
    write_guild(cache, guild_id, guild);
    proof {
        assert(cache@ =~= spec_add_guild_channel(old(cache)@, guild_id, channel_id));
    }
}

/// Remove a channel id from a guild's membership set.
fn remove_guild_channel(cache: &mut InMemoryCache, guild_id: u64, channel_id: u64)
    ensures
        final(cache)@ == spec_remove_guild_channel(old(cache)@, guild_id, channel_id),
{
    let mut guild = match cache.guilds.get(&guild_id) {
        Some(guild) => guild.clone(),
        None => {
            return ;
        },
    };
    remove_id(&mut guild.channels, channel_id);
    proof {
        assert(guild@ =~= (GuildView {
            channels: spec_remove_id(old(cache)@.guilds[guild_id].channels, channel_id),
            ..old(cache)@.guilds[guild_id]
        }));
    }
    write_guild(cache, guild_id, guild);
    proof {
        assert(cache@ =~= spec_remove_guild_channel(old(cache)@, guild_id, channel_id));
    }
}

/// Add a role id to a guild's membership set.
fn add_guild_role(cache: &mut InMemoryCache, guild_id: u64, role_id: u64)
    ensures
        final(cache)@ == spec_add_guild_role(old(cache)@, guild_id, role_id),
{
    let mut guild = match cache.guilds.get(&guild_id) {
        Some(guild) => guild.clone(),
        None => {
            return ;
        },
    };
    insert_id(&mut guild.roles, role_id);
    proof {
        assert(guild@ =~= (GuildView {
            roles: spec_insert_id(old(cache)@.guilds[guild_id].roles, role_id),
            ..old(cache)@.guilds[guild_id]
        }));
    }
    write_guild(cache, guild_id, guild);
    proof {
        assert(cache@ =~= spec_add_guild_role(old(cache)@, guild_id, role_id));
    }
}

/// Remove a role id from a guild's membership set.
fn remove_guild_role(cache: &mut InMemoryCache, guild_id: u64, role_id: u64)
    ensures
        final(cache)@ == spec_remove_guild_role(old(cache)@, guild_id, role_id),
{
    let mut guild = match cache.guilds.get(&guild_id) {
        Some(guild) => guild.clone(),
        None => {
            return ;
        },
    };
    remove_id(&mut guild.roles, role_id);
    proof {
        assert(guild@ =~= (GuildView {
            roles: spec_remove_id(old(cache)@.guilds[guild_id].roles, role_id),
            ..old(cache)@.guilds[guild_id]
        }));
    }
    write_guild(cache, guild_id, guild);
    proof {
        assert(cache@ =~= spec_remove_guild_role(old(cache)@, guild_id, role_id));
    }
}

/// The channel store after caching one guild channel payload.
pub open spec fn spec_cache_guild_channel(c: CacheView, p: ChannelPayload, guild_id: u64) -> CacheView {
    match spec_channel_from_payload(p, guild_id) {
        Some(cv) => CacheView { channels: c.channels.insert(p.id, cv), ..c },
        None => c,
    }
}

/// Cache a guild channel payload, returning the new cached value when the
/// payload can be cached.
fn cache_guild_channel(cache: &mut InMemoryCache, p: &ChannelPayload, guild_id: u64) -> (r: Option<
    CachedChannel,
>)
    ensures
        final(cache)@ == spec_cache_guild_channel(old(cache)@, *p, guild_id),
        match r {
            Some(c) => spec_channel_from_payload(*p, guild_id) == Some(c@),
            None => spec_channel_from_payload(*p, guild_id) is None,
        },
{
    match channel_from_payload(p, guild_id) {
        Some(c) => {
            let out = c.clone();
            proof {
                assert(c@.id() == p.id);
            }
            cache.upsert_channel(c);
            proof {
                assert(cache@ =~= spec_cache_guild_channel(old(cache)@, *p, guild_id));
            }
            Some(out)
        },
        None => None,
    }
}

/// The channel store after caching every cacheable channel of a guild
/// payload, in order.
pub open spec fn spec_cache_channels(
    m: Map<u64, ChannelView>,
    ps: Seq<ChannelPayload>,
    guild_id: u64,
) -> Map<u64, ChannelView>
    decreases ps.len(),
{
    if ps.len() == 0 {
        m
    } else {
        let rest = spec_cache_channels(m, ps.drop_last(), guild_id);
        match spec_channel_from_payload(ps.last(), guild_id) {
            Some(cv) => rest.insert(ps.last().id, cv),
            None => rest,
        }
    }
}

/// The ids of the cacheable channels of a guild payload, in payload order.
pub open spec fn spec_channel_ids(ps: Seq<ChannelPayload>, guild_id: u64) -> Seq<u64>
    decreases ps.len(),
{
    if ps.len() == 0 {
        Seq::empty()
    } else {
        let rest = spec_channel_ids(ps.drop_last(), guild_id);
        match spec_channel_from_payload(ps.last(), guild_id) {
            Some(_) => rest.push(ps.last().id),
            None => rest,
        }
    }
}

/// The role store after caching every role of a guild payload, in order.
pub open spec fn spec_cache_roles(
    m: Map<u64, RoleView>,
    ps: Seq<RolePayload>,
    guild_id: u64,
) -> Map<u64, RoleView>
    decreases ps.len(),
{
    if ps.len() == 0 {
        m
    } else {
        spec_cache_roles(m, ps.drop_last(), guild_id).insert(
            ps.last().id,
            spec_role_from_payload(ps.last(), guild_id),
        )
    }
}

/// The ids of the roles of a guild payload, in payload order.
pub open spec fn spec_role_ids(ps: Seq<RolePayload>) -> Seq<u64>
    decreases ps.len(),
{
    if ps.len() == 0 {
        Seq::empty()
    } else {
        spec_role_ids(ps.drop_last()).push(ps.last().id)
    }
}

/// The guild record built from a guild-create payload.
pub open spec fn spec_guild_from_payload(g: GuildPayload) -> GuildView {
    GuildView {
        id: g.id,
        name: g.name@,
        icon: match g.icon {
            Some(icon) => Some(icon@),
            None => None,
        },
        owner_id: g.owner_id,
        unavailable: g.unavailable,
        channels: spec_channel_ids(g.channels@, g.id),
        roles: spec_role_ids(g.roles@),
        current_member: None,
    }
}

/// The cache after a guild-create event: the guild record is stored with its
/// membership sets, and every nested cacheable channel and role is cached.
pub open spec fn spec_guild_create(c: CacheView, g: GuildPayload) -> CacheView {
    CacheView {
        guilds: c.guilds.insert(g.id, spec_guild_from_payload(g)),
        channels: spec_cache_channels(c.channels, g.channels@, g.id),
        roles: spec_cache_roles(c.roles, g.roles@, g.id),
        ..c
    }
}

/// The cache after a guild-delete event: the guild is removed and exactly the
/// channel and role ids of its membership sets are purged.
pub open spec fn spec_guild_delete(c: CacheView, id: u64) -> CacheView {
    if !c.guilds.contains_key(id) {
        c
    } else {
        CacheView {
            guilds: c.guilds.remove(id),
            channels: c.channels.remove_keys(c.guilds[id].channels.to_set()),
            roles: c.roles.remove_keys(c.guilds[id].roles.to_set()),
            ..c
        }
    }
}

/// The cache after a guild-unavailable event: the guild record is kept,
/// marked unavailable and emptied, and its children are purged as for a
/// delete.
pub open spec fn spec_guild_unavailable(c: CacheView, id: u64) -> CacheView {
    if !c.guilds.contains_key(id) {
        c
    } else {
        CacheView {
            guilds: c.guilds.insert(
                id,
                GuildView {
                    unavailable: true,
                    channels: Seq::empty(),
                    roles: Seq::empty(),
                    ..c.guilds[id]
                },
            ),
            channels: c.channels.remove_keys(c.guilds[id].channels.to_set()),
            roles: c.roles.remove_keys(c.guilds[id].roles.to_set()),
            ..c
        }
    }
}

/// The cache after a guild-update event: name, icon and owner are patched on
/// the existing guild record. A no-op when the guild is not cached.
pub open spec fn spec_guild_update(c: CacheView, ev: GuildUpdate) -> CacheView {
    if !c.guilds.contains_key(ev.id) {
        c
    } else {
        CacheView {
            guilds: c.guilds.insert(
                ev.id,
                GuildView {
                    name: ev.name@,
                    icon: match ev.icon {
                        Some(icon) => Some(icon@),
                        None => None,
                    },
                    owner_id: ev.owner_id,
                    ..c.guilds[ev.id]
                },
            ),
            ..c
        }
    }
}

/// The cache after a channel-create event: the channel is cached and its id
/// added to the owning guild's membership set, when the payload is cacheable.
pub open spec fn spec_channel_create(c: CacheView, p: ChannelPayload, guild_id: u64) -> CacheView {
    match spec_channel_from_payload(p, guild_id) {
        Some(cv) => spec_add_guild_channel(
            CacheView { channels: c.channels.insert(p.id, cv), ..c },
            guild_id,
            p.id,
        ),
        None => c,
    }
}

/// Dispatch of [`spec_channel_create`] over an incoming channel: non-guild
/// channels and channels without a guild id are ignored.
pub open spec fn spec_channel_create_ev(c: CacheView, ev: IncomingChannel) -> CacheView {
    match ev {
        IncomingChannel::Guild(p) => match p.guild_id {
            Some(gid) => spec_channel_create(c, p, gid),
            None => c,
        },
        IncomingChannel::Private => c,
    }
}

/// The cache after a channel-delete event: the id leaves the guild's
/// membership set and the channel store.
pub open spec fn spec_channel_delete(c: CacheView, id: u64, guild_id: u64) -> CacheView {
    let c1 = spec_remove_guild_channel(c, guild_id, id);
    CacheView { channels: c1.channels.remove(id), ..c1 }
}

/// Dispatch of [`spec_channel_delete`] over an incoming channel.
pub open spec fn spec_channel_delete_ev(c: CacheView, ev: IncomingChannel) -> CacheView {
    match ev {
        IncomingChannel::Guild(p) => match p.guild_id {
            Some(gid) => spec_channel_delete(c, p.id, gid),
            None => c,
        },
        IncomingChannel::Private => c,
    }
}

/// The channel removed by a channel-delete event, if one was cached.
pub open spec fn spec_channel_delete_result(c: CacheView, ev: IncomingChannel) -> Option<
    ChannelView,
> {
    match ev {
        IncomingChannel::Guild(p) => match p.guild_id {
            Some(_) => if c.channels.contains_key(p.id) {
                Some(c.channels[p.id])
            } else {
                None
            },
            None => None,
        },
        IncomingChannel::Private => None,
    }
}

/// Dispatch of [`spec_cache_guild_channel`] over an incoming channel: a
/// channel-update event overwrites the cached channel and touches nothing
/// else.
pub open spec fn spec_channel_update_ev(c: CacheView, ev: IncomingChannel) -> CacheView {
    match ev {
        IncomingChannel::Guild(p) => match p.guild_id {
            Some(gid) => spec_cache_guild_channel(c, p, gid),
            None => c,
        },
        IncomingChannel::Private => c,
    }
}

/// The new-current channel stored by a channel-update event, if resolvable.
pub open spec fn spec_channel_update_result(c: CacheView, ev: IncomingChannel) -> Option<
    ChannelView,
> {
    match ev {
        IncomingChannel::Guild(p) => match p.guild_id {
            Some(gid) => spec_channel_from_payload(p, gid),
            None => None,
        },
        IncomingChannel::Private => None,
    }
}

/// The cache after a role-create event: the role is cached and its id added
/// to the guild's membership set.
pub open spec fn spec_role_create(c: CacheView, p: RolePayload, guild_id: u64) -> CacheView {
    spec_add_guild_role(
        CacheView { roles: c.roles.insert(p.id, spec_role_from_payload(p, guild_id)), ..c },
        guild_id,
        p.id,
    )
}

/// The cache after a role-update event: the cached role is overwritten.
pub open spec fn spec_role_update(c: CacheView, p: RolePayload, guild_id: u64) -> CacheView {
    CacheView { roles: c.roles.insert(p.id, spec_role_from_payload(p, guild_id)), ..c }
}

/// The cache after a role-delete event: the id leaves the guild's membership
/// set and the role store.
pub open spec fn spec_role_delete(c: CacheView, role_id: u64, guild_id: u64) -> CacheView {
    let c1 = spec_remove_guild_role(c, guild_id, role_id);
    CacheView { roles: c1.roles.remove(role_id), ..c1 }
}

/// The cache after a member event about the bot itself: the guild's current
/// member is recomputed from the guild's current role set. Events about other
/// users or unknown guilds are ignored.
pub open spec fn spec_member_register(
    c: CacheView,
    guild_id: u64,
    user_id: u64,
    until: Option<u64>,
) -> CacheView {
    if user_id != c.current_user || !c.guilds.contains_key(guild_id) {
        c
    } else {
        CacheView {
            guilds: c.guilds.insert(
                guild_id,
                GuildView {
                    current_member: Some(
                        MemberView {
                            id: user_id,
                            communication_disabled_until: until,
                            roles: c.guilds[guild_id].roles,
                        },
                    ),
                    ..c.guilds[guild_id]
                },
            ),
            ..c
        }
    }
}

/// Guild-create event, carrying the guild with its nested channels and roles.
pub struct GuildCreate(pub GuildPayload);

/// Guild-delete event.
pub struct GuildDelete {
    /// Id of the deleted guild.
    pub id: u64,
}

/// Guild-unavailable event.
pub struct UnavailableGuild {
    /// Id of the unavailable guild.
    pub id: u64,
}

/// Guild-update event, carrying the patched name, icon and owner.
pub struct GuildUpdate {
    /// Id of the updated guild.
    pub id: u64,
    /// New name of the guild.
    pub name: String,
    /// New icon hash of the guild, if any.
    pub icon: Option<String>,
    /// New owner of the guild.
    pub owner_id: u64,
}

/// Channel-create event.
pub struct ChannelCreate(pub IncomingChannel);

/// Channel-delete event.
pub struct ChannelDelete(pub IncomingChannel);

/// Channel-update event.
pub struct ChannelUpdate(pub IncomingChannel);

/// Thread-create event.
pub struct ThreadCreate(pub IncomingChannel);

/// Thread-delete event, carrying the thread and guild ids directly.
pub struct ThreadDelete {
    /// Id of the deleted thread.
    pub id: u64,
    /// Id of the owning guild.
    pub guild_id: u64,
}

/// Thread-update event.
pub struct ThreadUpdate(pub IncomingChannel);

/// Role-create event.
pub struct RoleCreate {
    /// Id of the owning guild.
    pub guild_id: u64,
    /// The created role.
    pub role: RolePayload,
}

/// Role-delete event.
pub struct RoleDelete {
    /// Id of the owning guild.
    pub guild_id: u64,
    /// Id of the deleted role.
    pub role_id: u64,
}

/// Role-update event.
pub struct RoleUpdate {
    /// Id of the owning guild.
    pub guild_id: u64,
    /// The new-current role.
    pub role: RolePayload,
}

/// Member-add event; only the bot's own membership is ever cached.
pub struct MemberAdd {
    /// Id of the guild the member joined.
    pub guild_id: u64,
    /// Id of the member.
    pub user_id: u64,
    /// Until when the member is timed out, if at all.
    pub communication_disabled_until: Option<u64>,
}

/// Member-update event; only the bot's own membership is ever cached.
pub struct MemberUpdate {
    /// Id of the guild of the membership.
    pub guild_id: u64,
    /// Id of the member.
    pub user_id: u64,
    /// Until when the member is timed out, if at all.
    pub communication_disabled_until: Option<u64>,
}

impl GuildCreate {
    /// Cache the guild with its nested channels and roles.
    pub fn apply(&self, cache: &mut InMemoryCache)
        ensures
            final(cache)@ == spec_guild_create(old(cache)@, self.0),
    {
        let g = &self.0;
        let mut channel_ids: Vec<u64> = Vec::new();
        let mut i: usize = 0;
        while i < g.channels.len()
            invariant
                i <= g.channels.len(),
                cache@.current_user == old(cache)@.current_user,
                cache@.guilds == old(cache)@.guilds,
                cache@.roles == old(cache)@.roles,
                cache@.channels == spec_cache_channels(
                    old(cache)@.channels,
                    g.channels@.take(i as int),
                    g.id,
                ),
                channel_ids@ == spec_channel_ids(g.channels@.take(i as int), g.id),
            decreases g.channels.len() - i,
        {
            let ghost pre = cache@.channels;
            let ghost preids = channel_ids@.to_set();
            proof {
                assert(g.channels@.take(i + 1 as int) =~= g.channels@.take(i as int).push(
                    g.channels@[i as int],
                ));
                assert(g.channels@.take(i + 1 as int).drop_last() =~= g.channels@.take(i as int));
            }
            match channel_from_payload(&g.channels[i], g.id) {
                Some(c) => {
                    let id = c.id();
                    cache.upsert_channel(c);
                    channel_ids.push(id);
                },
                None => {
                },
            }
            i = i + 1;
        }
        proof {
            assert(g.channels@.take(g.channels@.len() as int) =~= g.channels@);
        }
        let mut role_ids: Vec<u64> = Vec::new();
        let mut j: usize = 0;
        while j < g.roles.len()
            invariant
                j <= g.roles.len(),
                cache@.current_user == old(cache)@.current_user,
                cache@.guilds == old(cache)@.guilds,
                cache@.channels == spec_cache_channels(old(cache)@.channels, g.channels@, g.id),
                cache@.roles == spec_cache_roles(old(cache)@.roles, g.roles@.take(j as int), g.id),
                role_ids@ == spec_role_ids(g.roles@.take(j as int)),
            decreases g.roles.len() - j,
        {
            proof {
                assert(g.roles@.take(j + 1 as int) =~= g.roles@.take(j as int).push(
                    g.roles@[j as int],
                ));
                assert(g.roles@.take(j + 1 as int).drop_last() =~= g.roles@.take(j as int));
            }
            let role = role_from_payload(&g.roles[j], g.id);
            cache.upsert_role(role);
            role_ids.push(g.roles[j].id);
            j = j + 1;
        }
        proof {
            assert(g.roles@.take(g.roles@.len() as int) =~= g.roles@);
        }
        let guild = CachedGuild {
            id: g.id,
            name: g.name.clone(),
            icon: match &g.icon {
                Some(icon) => Some(icon.clone()),
                None => None,
            },
            owner_id: g.owner_id,
            unavailable: g.unavailable,
            channels: channel_ids,
            roles: role_ids,
            current_member: None,
        };
        proof {
            assert(guild@ =~= spec_guild_from_payload(self.0));
        }
        write_guild(cache, g.id, guild);
        proof {
            assert(cache@ =~= spec_guild_create(old(cache)@, self.0));
        }
    }
}

impl GuildDelete {
    /// Remove the guild, cascading to its channels and roles.
    pub fn apply(&self, cache: &mut InMemoryCache) -> (r: Option<CachedGuild>)
        ensures
            final(cache)@ == spec_guild_delete(old(cache)@, self.id),
            match r {
                Some(g) => old(cache)@.guilds.contains_key(self.id) && g@ == old(cache)@.guilds[
                    self.id
                ],
                None => !old(cache)@.guilds.contains_key(self.id),
            },
    {
        let r = cache.remove_guild(self.id);
        proof {
            assert(cache@ =~= spec_guild_delete(old(cache)@, self.id));
        }
        r
    }
}

impl UnavailableGuild {
    /// Mark the guild unavailable, cascading to its channels and roles while
    /// keeping the guild record.
    pub fn apply(&self, cache: &mut InMemoryCache)
        ensures
            final(cache)@ == spec_guild_unavailable(old(cache)@, self.id),
    {
        cache.set_guild_unavailable(self.id);
        proof {
            assert(cache@ =~= spec_guild_unavailable(old(cache)@, self.id));
        }
    }
}

impl GuildUpdate {
    /// Patch name, icon and owner on the existing guild record, returning the
    /// pre-update snapshot.
    pub fn apply(&self, cache: &mut InMemoryCache) -> (r: Option<CachedGuild>)
        ensures
            final(cache)@ == spec_guild_update(old(cache)@, *self),
            match r {
                Some(g) => old(cache)@.guilds.contains_key(self.id) && g@ == old(cache)@.guilds[
                    self.id
                ],
                None => !old(cache)@.guilds.contains_key(self.id),
            },
    {
        let mut guild = match cache.guilds.get(&self.id) {
            Some(guild) => guild.clone(),
            None => {
                return None;
            },
        };
        let before = guild.clone();
        guild.name = self.name.clone();
        guild.icon = match &self.icon {
            Some(icon) => Some(icon.clone()),
            None => None,
        };
        guild.owner_id = self.owner_id;
        proof {
            assert(guild@ =~= (GuildView {
                name: self.name@,
                icon: match self.icon {
                    Some(icon) => Some(icon@),
                    None => None,
                },
                owner_id: self.owner_id,
                ..old(cache)@.guilds[self.id]
            }));
        }
        write_guild(cache, self.id, guild);
        proof {
            assert(cache@ =~= spec_guild_update(old(cache)@, *self));
        }
        Some(before)
    }
}

/// Cache an incoming created channel and register it on its guild.
fn apply_channel_create(cache: &mut InMemoryCache, ev: &IncomingChannel)
    ensures
        final(cache)@ == spec_channel_create_ev(old(cache)@, *ev),
{
    let p = match ev {
        IncomingChannel::Guild(p) => p,
        IncomingChannel::Private => {
            return ;
        },
    };
    let guild_id = match p.guild_id {
        Some(guild_id) => guild_id,
        None => {
            return ;
        },
    };
    match cache_guild_channel(cache, p, guild_id) {
        Some(_) => {
            add_guild_channel(cache, guild_id, p.id);
        },
        None => {
        },
    }
    proof {
        assert(cache@ =~= spec_channel_create_ev(old(cache)@, *ev));
    }
}

/// Remove an incoming deleted channel from its guild and from the store.
fn apply_channel_delete(cache: &mut InMemoryCache, ev: &IncomingChannel) -> (r: Option<
    CachedChannel,
>)
    ensures
        final(cache)@ == spec_channel_delete_ev(old(cache)@, *ev),
        match r {
            Some(c) => spec_channel_delete_result(old(cache)@, *ev) == Some(c@),
            None => spec_channel_delete_result(old(cache)@, *ev) is None,
        },
{
    let p = match ev {
        IncomingChannel::Guild(p) => p,
        IncomingChannel::Private => {
            return None;
        },
    };
    let guild_id = match p.guild_id {
        Some(guild_id) => guild_id,
        None => {
            return None;
        },
    };
    remove_guild_channel(cache, guild_id, p.id);
    let r = cache.remove_channel(p.id);
    proof {
        assert(cache@ =~= spec_channel_delete_ev(old(cache)@, *ev));
    }
    r
}

/// Overwrite an incoming updated channel in the store.
fn apply_channel_update(cache: &mut InMemoryCache, ev: &IncomingChannel) -> (r: Option<
    CachedChannel,
>)
    ensures
        final(cache)@ == spec_channel_update_ev(old(cache)@, *ev),
        match r {
            Some(c) => spec_channel_update_result(old(cache)@, *ev) == Some(c@),
            None => spec_channel_update_result(old(cache)@, *ev) is None,
        },
{
    let p = match ev {
        IncomingChannel::Guild(p) => p,
        IncomingChannel::Private => {
            return None;
        },
    };
    let guild_id = match p.guild_id {
        Some(guild_id) => guild_id,
        None => {
            return None;
        },
    };
    cache_guild_channel(cache, p, guild_id)
}

impl ChannelCreate {
    /// Cache the channel and add its id to the owning guild's channel set.
    pub fn apply(&self, cache: &mut InMemoryCache)
        ensures
            final(cache)@ == spec_channel_create_ev(old(cache)@, self.0),
    {
        apply_channel_create(cache, &self.0)
    }
}

impl ChannelDelete {
    /// Remove the channel id from the owning guild's channel set and the
    /// channel from the store, returning the removed channel if present.
    pub fn apply(&self, cache: &mut InMemoryCache) -> (r: Option<CachedChannel>)
        ensures
            final(cache)@ == spec_channel_delete_ev(old(cache)@, self.0),
            match r {
                Some(c) => spec_channel_delete_result(old(cache)@, self.0) == Some(c@),
                None => spec_channel_delete_result(old(cache)@, self.0) is None,
            },
    {
        apply_channel_delete(cache, &self.0)
    }
}

impl ChannelUpdate {
    /// Overwrite the cached channel, returning the new-current channel if
    /// resolvable.
    pub fn apply(&self, cache: &mut InMemoryCache) -> (r: Option<CachedChannel>)
        ensures
            final(cache)@ == spec_channel_update_ev(old(cache)@, self.0),
            match r {
                Some(c) => spec_channel_update_result(old(cache)@, self.0) == Some(c@),
                None => spec_channel_update_result(old(cache)@, self.0) is None,
            },
    {
        apply_channel_update(cache, &self.0)
    }
}

impl ThreadCreate {
    /// Cache the thread and add its id to the owning guild's channel set.
    pub fn apply(&self, cache: &mut InMemoryCache)
        ensures
            final(cache)@ == spec_channel_create_ev(old(cache)@, self.0),
    {
        apply_channel_create(cache, &self.0)
    }
}

impl ThreadDelete {
    /// Remove the thread id from the owning guild's channel set and the
    /// thread from the store, returning the removed channel if present.
    pub fn apply(&self, cache: &mut InMemoryCache) -> (r: Option<CachedChannel>)
        ensures
            final(cache)@ == spec_channel_delete(old(cache)@, self.id, self.guild_id),
            match r {
                Some(c) => old(cache)@.channels.contains_key(self.id) && c@ == old(
                    cache,
                )@.channels[self.id],
                None => !old(cache)@.channels.contains_key(self.id),
            },
    {
        remove_guild_channel(cache, self.guild_id, self.id);
        let r = cache.remove_channel(self.id);
        proof {
            assert(cache@ =~= spec_channel_delete(old(cache)@, self.id, self.guild_id));
        }
        r
    }
}

impl ThreadUpdate {
    /// Overwrite the cached thread, returning the new-current channel if
    /// resolvable.
    pub fn apply(&self, cache: &mut InMemoryCache) -> (r: Option<CachedChannel>)
        ensures
            final(cache)@ == spec_channel_update_ev(old(cache)@, self.0),
            match r {
                Some(c) => spec_channel_update_result(old(cache)@, self.0) == Some(c@),
                None => spec_channel_update_result(old(cache)@, self.0) is None,
            },
    {
        apply_channel_update(cache, &self.0)
    }
}

impl RoleCreate {
    /// Cache the role and add its id to the guild's role set.
    pub fn apply(&self, cache: &mut InMemoryCache)
        ensures
            final(cache)@ == spec_role_create(old(cache)@, self.role, self.guild_id),
    {
        let role = role_from_payload(&self.role, self.guild_id);
        cache.upsert_role(role);
        add_guild_role(cache, self.guild_id, self.role.id);
        proof {
            assert(cache@ =~= spec_role_create(old(cache)@, self.role, self.guild_id));
        }
    }
}

impl RoleDelete {
    /// Remove the role id from the guild's role set and the role from the
    /// store, returning the removed role if present.
    pub fn apply(&self, cache: &mut InMemoryCache) -> (r: Option<CachedRole>)
        ensures
            final(cache)@ == spec_role_delete(old(cache)@, self.role_id, self.guild_id),
            match r {
                Some(ro) => old(cache)@.roles.contains_key(self.role_id) && ro@ == old(
                    cache,
                )@.roles[self.role_id],
                None => !old(cache)@.roles.contains_key(self.role_id),
            },
    {
        remove_guild_role(cache, self.guild_id, self.role_id);
        let r = cache.remove_role(self.role_id);
        proof {
            assert(cache@ =~= spec_role_delete(old(cache)@, self.role_id, self.guild_id));
        }
        r
    }
}

impl RoleUpdate {
    /// Overwrite the cached role, returning the new-current role.
    pub fn apply(&self, cache: &mut InMemoryCache) -> (r: Option<CachedRole>)
        ensures
            final(cache)@ == spec_role_update(old(cache)@, self.role, self.guild_id),
            match r {
                Some(ro) => ro@ == spec_role_from_payload(self.role, self.guild_id),
                None => false,
            },
    {
        let role = role_from_payload(&self.role, self.guild_id);
        let out = role.clone();
        cache.upsert_role(role);
        proof {
            assert(cache@ =~= spec_role_update(old(cache)@, self.role, self.guild_id));
        }
        Some(out)
    }
}

impl MemberAdd {
    /// Compute and store the bot's own membership from the guild's current
    /// role set. Events about other users or unknown guilds are ignored.
    pub fn apply(&self, cache: &mut InMemoryCache)
        ensures
            final(cache)@ == spec_member_register(
                old(cache)@,
                self.guild_id,
                self.user_id,
                self.communication_disabled_until,
            ),
    {
        if self.user_id != cache.current_user() {
            return ;
        }
        let mut guild = match cache.guilds.get(&self.guild_id) {
            Some(guild) => guild.clone(),
            None => {
                return ;
            },
        };
        let member = CurrentMember {
            id: self.user_id,
            communication_disabled_until: self.communication_disabled_until,
            roles: copy_ids(&guild.roles),
        };
        guild.current_member = Some(member);
        proof {
            assert(guild@ =~= (GuildView {
                current_member: Some(
                    MemberView {
                        id: self.user_id,
                        communication_disabled_until: self.communication_disabled_until,
                        roles: old(cache)@.guilds[self.guild_id].roles,
                    },
                ),
                ..old(cache)@.guilds[self.guild_id]
            }));
        }
        write_guild(cache, self.guild_id, guild);
        proof {
            assert(cache@ =~= spec_member_register(
                old(cache)@,
                self.guild_id,
                self.user_id,
                self.communication_disabled_until,
            ));
        }
    }
}

impl MemberUpdate {
    /// Recompute the bot's own membership from the guild's current role set,
    /// returning the previous membership. Events about other users or unknown
    /// guilds are ignored.
    pub fn apply(&self, cache: &mut InMemoryCache) -> (r: Option<CurrentMember>)
        ensures
            final(cache)@ == spec_member_register(
                old(cache)@,
                self.guild_id,
                self.user_id,
                self.communication_disabled_until,
            ),
            match r {
                Some(m) => self.user_id == old(cache)@.current_user && old(
                    cache,
                )@.guilds.contains_key(self.guild_id) && old(cache)@.guilds[
                    self.guild_id
                ].current_member == Some(m@),
                None => self.user_id != old(cache)@.current_user || !old(
                    cache,
                )@.guilds.contains_key(self.guild_id) || old(cache)@.guilds[
                    self.guild_id
                ].current_member is None,
            },
    {
        if self.user_id != cache.current_user() {
            return None;
        }
        let mut guild = match cache.guilds.get(&self.guild_id) {
            Some(guild) => guild.clone(),
            None => {
                return None;
            },
        };
        let previous = guild.current_member;
        guild.current_member = None;
        let member = CurrentMember {
            id: self.user_id,
            communication_disabled_until: self.communication_disabled_until,
            roles: copy_ids(&guild.roles),
        };
        guild.current_member = Some(member);
        proof {
            assert(guild@ =~= (GuildView {
                current_member: Some(
                    MemberView {
                        id: self.user_id,
                        communication_disabled_until: self.communication_disabled_until,
                        roles: old(cache)@.guilds[self.guild_id].roles,
                    },
                ),
                ..old(cache)@.guilds[self.guild_id]
            }));
        }
        write_guild(cache, self.guild_id, guild);
        proof {
            assert(cache@ =~= spec_member_register(
                old(cache)@,
                self.guild_id,
                self.user_id,
                self.communication_disabled_until,
            ));
        }
        previous
    }
}

impl UpdateCache for GuildCreate {
    type Output = ();

    fn update(&self, cache: &mut InMemoryCache) -> Self::Output {
        self.apply(cache)
    }
}

impl UpdateCache for GuildDelete {
    type Output = Option<CachedGuild>;

    fn update(&self, cache: &mut InMemoryCache) -> Self::Output {
        self.apply(cache)
    }
}

impl UpdateCache for UnavailableGuild {
    type Output = ();

    fn update(&self, cache: &mut InMemoryCache) -> Self::Output {
        self.apply(cache)
    }
}

impl UpdateCache for GuildUpdate {
    type Output = Option<CachedGuild>;

    fn update(&self, cache: &mut InMemoryCache) -> Self::Output {
        self.apply(cache)
    }
}

impl UpdateCache for ChannelCreate {
    type Output = ();

    fn update(&self, cache: &mut InMemoryCache) -> Self::Output {
        self.apply(cache)
    }
}

impl UpdateCache for ChannelDelete {
    type Output = Option<CachedChannel>;

    fn update(&self, cache: &mut InMemoryCache) -> Self::Output {
        self.apply(cache)
    }
}

impl UpdateCache for ChannelUpdate {
    type Output = Option<CachedChannel>;

    fn update(&self, cache: &mut InMemoryCache) -> Self::Output {
        self.apply(cache)
    }
}

impl UpdateCache for ThreadCreate {
    type Output = ();

    fn update(&self, cache: &mut InMemoryCache) -> Self::Output {
        self.apply(cache)
    }
}

impl UpdateCache for ThreadDelete {
    type Output = Option<CachedChannel>;

    fn update(&self, cache: &mut InMemoryCache) -> Self::Output {
        self.apply(cache)
    }
}

impl UpdateCache for ThreadUpdate {
    type Output = Option<CachedChannel>;

    fn update(&self, cache: &mut InMemoryCache) -> Self::Output {
        self.apply(cache)
    }
}

impl UpdateCache for RoleCreate {
    type Output = ();

    fn update(&self, cache: &mut InMemoryCache) -> Self::Output {
        self.apply(cache)
    }
}

impl UpdateCache for RoleDelete {
    type Output = Option<CachedRole>;

    fn update(&self, cache: &mut InMemoryCache) -> Self::Output {
        self.apply(cache)
    }
}

impl UpdateCache for RoleUpdate {
    type Output = Option<CachedRole>;

    fn update(&self, cache: &mut InMemoryCache) -> Self::Output {
        self.apply(cache)
    }
}

impl UpdateCache for MemberAdd {
    type Output = ();

    fn update(&self, cache: &mut InMemoryCache) -> Self::Output {
        self.apply(cache)
    }
}

impl UpdateCache for MemberUpdate {
    type Output = Option<CurrentMember>;

    fn update(&self, cache: &mut InMemoryCache) -> Self::Output {
        self.apply(cache)
    }
}

/// Caching a payload's channel list writes the same entries whatever the
/// starting store: the result is the store overlaid with the payload's own
/// entries.
proof fn lemma_cache_channels_as_union(m: Map<u64, ChannelView>, ps: Seq<ChannelPayload>, guild_id: u64)
    ensures
        spec_cache_channels(m, ps, guild_id) =~= m.union_prefer_right(
            spec_cache_channels(Map::empty(), ps, guild_id),
        ),
    decreases ps.len(),
{
    if ps.len() == 0 {
        assert(m.union_prefer_right(Map::<u64, ChannelView>::empty()) =~= m);
    } else {
        lemma_cache_channels_as_union(m, ps.drop_last(), guild_id);
    }
}

/// Caching a payload's role list writes the same entries whatever the
/// starting store: the result is the store overlaid with the payload's own
/// entries.
proof fn lemma_cache_roles_as_union(m: Map<u64, RoleView>, ps: Seq<RolePayload>, guild_id: u64)
    ensures
        spec_cache_roles(m, ps, guild_id) =~= m.union_prefer_right(
            spec_cache_roles(Map::empty(), ps, guild_id),
        ),
    decreases ps.len(),
{
    if ps.len() == 0 {
        assert(m.union_prefer_right(Map::<u64, RoleView>::empty()) =~= m);
    } else {
        lemma_cache_roles_as_union(m, ps.drop_last(), guild_id);
    }
}

/// Inserting an id leaves the list containing it, so a second insert is a
/// no-op.
proof fn lemma_insert_id_idempotent(s: Seq<u64>, x: u64)
    ensures
        spec_insert_id(s, x).contains(x),
        spec_insert_id(spec_insert_id(s, x), x) == spec_insert_id(s, x),
{
    if !s.contains(x) {
        assert(s.push(x)[s.len() as int] == x);
    }
}

/// A removal leaves no occurrence of the id, so a second removal is a no-op.
proof fn lemma_remove_id_idempotent(s: Seq<u64>, x: u64)
    ensures
        !spec_remove_id(s, x).contains(x),
        spec_remove_id(spec_remove_id(s, x), x) == spec_remove_id(s, x),
{
    lemma_remove_id_absent(s, x);
    lemma_remove_id_of_absent(spec_remove_id(s, x), x);
}

/// A removal leaves no occurrence of the removed id.
proof fn lemma_remove_id_absent(s: Seq<u64>, x: u64)
    ensures
        !spec_remove_id(s, x).contains(x),
    decreases s.len(),
{
    if s.len() > 0 {
        lemma_remove_id_absent(s.drop_last(), x);
        let rest = spec_remove_id(s.drop_last(), x);
        if s.last() != x {
            assert forall|i: int| 0 <= i < rest.push(s.last()).len() implies rest.push(
                s.last(),
            )[i] != x by {
                if i < rest.len() {
                    assert(!rest.contains(x));
                }
            }
        }
    }
}

/// Removing an id that does not occur leaves the list unchanged.
proof fn lemma_remove_id_of_absent(s: Seq<u64>, x: u64)
    requires
        !s.contains(x),
    ensures
        spec_remove_id(s, x) == s,
    decreases s.len(),
{
    if s.len() > 0 {
        assert(s[s.len() - 1] != x);
        assert forall|i: int| 0 <= i < s.drop_last().len() implies s.drop_last()[i] != x by {
            assert(s[i] != x);
        }
        lemma_remove_id_of_absent(s.drop_last(), x);
        assert(s.drop_last().push(s.last()) =~= s);
    }
}

/// Idempotence of the guild-create projection: applying the same event twice
/// leaves the cache in the state produced by the first application.
pub proof fn lemma_guild_create_idempotent(c: CacheView, g: GuildPayload)
    ensures
        spec_guild_create(spec_guild_create(c, g), g) == spec_guild_create(c, g),
{
    let c1 = spec_guild_create(c, g);
    lemma_cache_channels_as_union(c.channels, g.channels@, g.id);
    lemma_cache_channels_as_union(c1.channels, g.channels@, g.id);
    lemma_cache_roles_as_union(c.roles, g.roles@, g.id);
    lemma_cache_roles_as_union(c1.roles, g.roles@, g.id);
    assert(spec_guild_create(c1, g).channels =~= c1.channels);
    assert(spec_guild_create(c1, g).roles =~= c1.roles);
    assert(spec_guild_create(c1, g).guilds =~= c1.guilds);
    assert(spec_guild_create(c1, g) =~= c1);
}

/// Idempotence of the guild-update projection. The snapshot returned by a
/// second application is, by the handler's contract, the state after the
/// first one.
pub proof fn lemma_guild_update_idempotent(c: CacheView, ev: GuildUpdate)
    ensures
        spec_guild_update(spec_guild_update(c, ev), ev) == spec_guild_update(c, ev),
{
    let c1 = spec_guild_update(c, ev);
    if c.guilds.contains_key(ev.id) {
        assert(spec_guild_update(c1, ev).guilds =~= c1.guilds);
        assert(spec_guild_update(c1, ev) =~= c1);
    }
}

/// Idempotence of the guild-delete projection: the second application finds
/// no guild and is a no-op.
pub proof fn lemma_guild_delete_idempotent(c: CacheView, id: u64)
    ensures
        spec_guild_delete(spec_guild_delete(c, id), id) == spec_guild_delete(c, id),
{
}

/// Idempotence of the guild-unavailable projection: the second application
/// patches the same record and cascades over empty membership sets.
pub proof fn lemma_guild_unavailable_idempotent(c: CacheView, id: u64)
    ensures
        spec_guild_unavailable(spec_guild_unavailable(c, id), id) == spec_guild_unavailable(c, id),
{
    let c1 = spec_guild_unavailable(c, id);
    if c.guilds.contains_key(id) {
        assert(c1.channels.remove_keys(c1.guilds[id].channels.to_set()) =~= c1.channels);
        assert(c1.roles.remove_keys(c1.guilds[id].roles.to_set()) =~= c1.roles);
        assert(spec_guild_unavailable(c1, id).guilds =~= c1.guilds);
        assert(spec_guild_unavailable(c1, id) =~= c1);
    }
}

/// Idempotence of the channel-create projection.
pub proof fn lemma_channel_create_idempotent(c: CacheView, ev: IncomingChannel)
    ensures
        spec_channel_create_ev(spec_channel_create_ev(c, ev), ev) == spec_channel_create_ev(c, ev),
{
    let c1 = spec_channel_create_ev(c, ev);
    match ev {
        IncomingChannel::Guild(p) => match p.guild_id {
            Some(gid) => match spec_channel_from_payload(p, gid) {
                Some(cv) => {
                    if c.guilds.contains_key(gid) {
                        lemma_insert_id_idempotent(c.guilds[gid].channels, p.id);
                    }
                    assert(spec_channel_create_ev(c1, ev).channels =~= c1.channels);
                    assert(spec_channel_create_ev(c1, ev).guilds =~~= c1.guilds);
                    assert(spec_channel_create_ev(c1, ev) =~~= c1);
                },
                None => {
                },
            },
            None => {
            },
        },
        IncomingChannel::Private => {
        },
    }
}

/// Idempotence of the channel-update projection. The value returned by a
/// second application is the new-current channel, which is the state after
/// the first application.
pub proof fn lemma_channel_update_idempotent(c: CacheView, ev: IncomingChannel)
    ensures
        spec_channel_update_ev(spec_channel_update_ev(c, ev), ev) == spec_channel_update_ev(c, ev),
{
    let c1 = spec_channel_update_ev(c, ev);
    match ev {
        IncomingChannel::Guild(p) => match p.guild_id {
            Some(gid) => {
                assert(spec_channel_update_ev(c1, ev).channels =~= c1.channels);
                assert(spec_channel_update_ev(c1, ev) =~= c1);
            },
            None => {
            },
        },
        IncomingChannel::Private => {
        },
    }
}

/// Idempotence of the channel-delete projection: the second application
/// removes nothing and returns nothing.
pub proof fn lemma_channel_delete_idempotent(c: CacheView, ev: IncomingChannel)
    ensures
        spec_channel_delete_ev(spec_channel_delete_ev(c, ev), ev) == spec_channel_delete_ev(c, ev),
        spec_channel_delete_result(spec_channel_delete_ev(c, ev), ev) is None,
{
    let c1 = spec_channel_delete_ev(c, ev);
    match ev {
        IncomingChannel::Guild(p) => match p.guild_id {
            Some(gid) => {
                if c.guilds.contains_key(gid) {
                    lemma_remove_id_idempotent(c.guilds[gid].channels, p.id);
                }
                assert(spec_channel_delete_ev(c1, ev).channels =~= c1.channels);
                assert(spec_channel_delete_ev(c1, ev).guilds =~~= c1.guilds);
                assert(spec_channel_delete_ev(c1, ev) =~~= c1);
            },
            None => {
            },
        },
        IncomingChannel::Private => {
        },
    }
}

/// Idempotence of the thread-delete projection, which names its ids
/// directly: the second application removes nothing.
pub proof fn lemma_thread_delete_idempotent(c: CacheView, id: u64, guild_id: u64)
    ensures
        spec_channel_delete(spec_channel_delete(c, id, guild_id), id, guild_id)
            == spec_channel_delete(c, id, guild_id),
        !spec_channel_delete(c, id, guild_id).channels.contains_key(id),
{
    let c1 = spec_channel_delete(c, id, guild_id);
    if c.guilds.contains_key(guild_id) {
        lemma_remove_id_idempotent(c.guilds[guild_id].channels, id);
    }
    assert(spec_channel_delete(c1, id, guild_id).channels =~= c1.channels);
    assert(spec_channel_delete(c1, id, guild_id).guilds =~~= c1.guilds);
    assert(spec_channel_delete(c1, id, guild_id) =~~= c1);
}

/// Idempotence of the role-create projection.
pub proof fn lemma_role_create_idempotent(c: CacheView, p: RolePayload, guild_id: u64)
    ensures
        spec_role_create(spec_role_create(c, p, guild_id), p, guild_id) == spec_role_create(
            c,
            p,
            guild_id,
        ),
{
    let c1 = spec_role_create(c, p, guild_id);
    if c.guilds.contains_key(guild_id) {
        lemma_insert_id_idempotent(c.guilds[guild_id].roles, p.id);
    }
    assert(spec_role_create(c1, p, guild_id).roles =~= c1.roles);
    assert(spec_role_create(c1, p, guild_id).guilds =~~= c1.guilds);
    assert(spec_role_create(c1, p, guild_id) =~~= c1);
}

/// Idempotence of the role-update projection. The value returned by a second
/// application is the new-current role, which is the state after the first
/// application.
pub proof fn lemma_role_update_idempotent(c: CacheView, p: RolePayload, guild_id: u64)
    ensures
        spec_role_update(spec_role_update(c, p, guild_id), p, guild_id) == spec_role_update(
            c,
            p,
            guild_id,
        ),
{
    let c1 = spec_role_update(c, p, guild_id);
    assert(spec_role_update(c1, p, guild_id).roles =~= c1.roles);
    assert(spec_role_update(c1, p, guild_id) =~= c1);
}

/// Idempotence of the role-delete projection: the second application removes
/// nothing and returns nothing.
pub proof fn lemma_role_delete_idempotent(c: CacheView, role_id: u64, guild_id: u64)
    ensures
        spec_role_delete(spec_role_delete(c, role_id, guild_id), role_id, guild_id)
            == spec_role_delete(c, role_id, guild_id),
        !spec_role_delete(c, role_id, guild_id).roles.contains_key(role_id),
{
    let c1 = spec_role_delete(c, role_id, guild_id);
    if c.guilds.contains_key(guild_id) {
        lemma_remove_id_idempotent(c.guilds[guild_id].roles, role_id);
    }
    assert(spec_role_delete(c1, role_id, guild_id).roles =~= c1.roles);
    assert(spec_role_delete(c1, role_id, guild_id).guilds =~~= c1.guilds);
    assert(spec_role_delete(c1, role_id, guild_id) =~~= c1);
}

/// Idempotence of the member projection: the recomputation reads the guild's
/// role set, which the first application left unchanged. The previous value
/// returned by a second application is, by the handler's contract, the
/// membership stored by the first one.
pub proof fn lemma_member_register_idempotent(
    c: CacheView,
    guild_id: u64,
    user_id: u64,
    until: Option<u64>,
)
    ensures
        spec_member_register(spec_member_register(c, guild_id, user_id, until), guild_id, user_id, until)
            == spec_member_register(c, guild_id, user_id, until),
{
    let c1 = spec_member_register(c, guild_id, user_id, until);
    if user_id == c.current_user && c.guilds.contains_key(guild_id) {
        assert(spec_member_register(c1, guild_id, user_id, until).guilds =~= c1.guilds);
        assert(spec_member_register(c1, guild_id, user_id, until) =~= c1);
    }
}

/// Cascade correctness: removing a guild (or marking it unavailable) purges
/// exactly the entities referenced by the guild's channel and role sets from
/// their stores, no more and no less, and leaves every other entity, and
/// every other guild, untouched.
pub proof fn lemma_cascade_exact(c: CacheView, id: u64)
    requires
        c.guilds.contains_key(id),
    ensures
        ({
            let d = spec_guild_delete(c, id);
            &&& forall|k: u64|
                #[trigger] d.channels.contains_key(k) <==> (c.channels.contains_key(k)
                    && !c.guilds[id].channels.contains(k))
            &&& forall|k: u64| #[trigger] d.channels.contains_key(k) ==> d.channels[k]
                == c.channels[k]
            &&& forall|k: u64|
                #[trigger] d.roles.contains_key(k) <==> (c.roles.contains_key(k) && !c.guilds[
                    id
                ].roles.contains(k))
            &&& forall|k: u64| #[trigger] d.roles.contains_key(k) ==> d.roles[k] == c.roles[k]
            &&& d.guilds == c.guilds.remove(id)
        }),
        spec_guild_unavailable(c, id).channels == spec_guild_delete(c, id).channels,
        spec_guild_unavailable(c, id).roles == spec_guild_delete(c, id).roles,
        spec_guild_unavailable(c, id).guilds.contains_key(id),
{
}

} // verus!
