//! Permission resolver.
//!
//! A pure function over cached guild, channel and role data that reproduces
//! the platform's hierarchical permission-resolution algorithm for a
//! (member, channel) pair:
//!
//! 1. The guild owner holds the full permission set.
//! 2. Base permissions are the bitwise union of the `@everyone` role's
//!    bitmask and every role bitmask the member holds.
//! 3. A base that includes the administrator bit grants the full permission
//!    set, skipping overwrites.
//! 4. Channel overwrites apply only to channels that carry their own
//!    overwrite list; a thread inherits its parent's list.
//! 5. Overwrites apply in fixed precedence: `@everyone` overwrite, then the
//!    union of matching role overwrites, then the member overwrite, each
//!    layer deny-then-allow.
//!
//! Resolving against an unknown guild, channel or role id is a cache miss,
//! never a permission decision: the resolver returns nothing and callers must
//! treat that as a denial.

use vstd::prelude::*;

use crate::cache::{CacheView, InMemoryCache};
use crate::model::{CachedChannel, ChannelType, ChannelView, PermissionOverwrite,
    PermissionOverwriteType};

verus! {

/// Permission bit: kick members.
pub const PERMISSION_KICK_MEMBERS: u64 = 0x2;

/// Permission bit: administrator; grants every permission everywhere.
pub const PERMISSION_ADMINISTRATOR: u64 = 0x8;

/// Permission bit: manage channels.
pub const PERMISSION_MANAGE_CHANNELS: u64 = 0x10;

/// Permission bit: view a channel.
pub const PERMISSION_VIEW_CHANNEL: u64 = 0x400;

/// Permission bit: send messages in a regular channel.
pub const PERMISSION_SEND_MESSAGES: u64 = 0x800;

/// Permission bit: attach rich embeds to messages.
pub const PERMISSION_EMBED_LINKS: u64 = 0x4000;

/// Permission bit: use emojis from other guilds.
pub const PERMISSION_USE_EXTERNAL_EMOJIS: u64 = 0x40000;

/// Permission bit: send messages inside a thread.
pub const PERMISSION_SEND_MESSAGES_IN_THREADS: u64 = 0x4000000000;

/// The full permission set, granted to owners and administrators.
pub const PERMISSIONS_ALL: u64 = 0xFFFF_FFFF_FFFF_FFFF;

/// Whether a permission bitmask contains every bit of `bits`.
pub open spec fn spec_contains_bits(perms: u64, bits: u64) -> bool {
    perms & bits == bits
}

/// Whether a permission bitmask contains every bit of `bits`.
pub fn contains_bits(perms: u64, bits: u64) -> (r: bool)
    ensures
        r == spec_contains_bits(perms, bits),
{
    perms & bits == bits
}

/// The union of the bitmasks of the given roles, or nothing if one of them
/// is not cached.
pub open spec fn spec_roles_union(c: CacheView, roles: Seq<u64>) -> Option<u64>
    decreases roles.len(),
{
    if roles.len() == 0 {
        Some(0u64)
    } else {
        match spec_roles_union(c, roles.drop_last()) {
            None => None,
            Some(acc) => if c.roles.contains_key(roles.last()) {
                Some(acc | c.roles[roles.last()].permissions)
            } else {
                None
            },
        }
    }
}

/// Base permissions of a member: the union of the `@everyone` role (whose id
/// equals the guild id) and every role the member holds. Nothing on a cache
/// miss.
pub open spec fn spec_base_permissions(c: CacheView, guild_id: u64, roles: Seq<u64>) -> Option<
    u64,
> {
    if !c.roles.contains_key(guild_id) {
        None
    } else {
        match spec_roles_union(c, roles) {
            None => None,
            Some(u) => Some(u | c.roles[guild_id].permissions),
        }
    }
}

/// Guild-level resolved permissions of a member: owner and administrator
/// bypass included. Nothing on a cache miss.
pub open spec fn spec_guild_permissions(
    c: CacheView,
    guild_id: u64,
    member_id: u64,
    roles: Seq<u64>,
) -> Option<u64> {
    if !c.guilds.contains_key(guild_id) {
        None
    } else if member_id == c.guilds[guild_id].owner_id {
        Some(PERMISSIONS_ALL)
    } else {
        match spec_base_permissions(c, guild_id, roles) {
            None => None,
            Some(base) => if base & PERMISSION_ADMINISTRATOR == PERMISSION_ADMINISTRATOR {
                Some(PERMISSIONS_ALL)
            } else {
                Some(base)
            },
        }
    }
}

/// The first overwrite in the list targeting the given kind and id.
pub open spec fn spec_find_overwrite(
    ows: Seq<PermissionOverwrite>,
    kind: PermissionOverwriteType,
    id: u64,
) -> Option<PermissionOverwrite>
    decreases ows.len(),
{
    if ows.len() == 0 {
        None
    } else if ows.first().kind == kind && ows.first().id == id {
        Some(ows.first())
    } else {
        spec_find_overwrite(ows.drop_first(), kind, id)
    }
}

/// The combined (allow, deny) masks of every role overwrite matching a role
/// the member holds. Role overwrites are combined before applying, not
/// layered one by one.
pub open spec fn spec_role_overwrites_union(
    ows: Seq<PermissionOverwrite>,
    roles: Seq<u64>,
) -> (u64, u64)
    decreases ows.len(),
{
    if ows.len() == 0 {
        (0u64, 0u64)
    } else {
        let rest = spec_role_overwrites_union(ows.drop_last(), roles);
        let ow = ows.last();
        if ow.kind == PermissionOverwriteType::Role && roles.contains(ow.id) {
            (rest.0 | ow.allow, rest.1 | ow.deny)
        } else {
            rest
        }
    }
}

/// Apply a channel's overwrite list to a base bitmask, in fixed precedence:
/// `@everyone` overwrite, then the union of matching role overwrites, then
/// the member overwrite, each layer deny-then-allow.
pub open spec fn spec_apply_overwrites(
    base: u64,
    ows: Seq<PermissionOverwrite>,
    everyone_id: u64,
    member_id: u64,
    roles: Seq<u64>,
) -> u64 {
    let p0 = match spec_find_overwrite(ows, PermissionOverwriteType::Role, everyone_id) {
        Some(ow) => (base & !ow.deny) | ow.allow,
        None => base,
    };
    let ru = spec_role_overwrites_union(ows, roles);
    let p1 = (p0 & !ru.1) | ru.0;
    match spec_find_overwrite(ows, PermissionOverwriteType::Member, member_id) {
        Some(ow) => (p1 & !ow.deny) | ow.allow,
        None => p1,
    }
}

/// The overwrite list that governs a channel: its own list for a text or
/// category channel, the parent's list for a thread. Nothing when a thread's
/// parent is not cached.
pub open spec fn spec_channel_overwrites(c: CacheView, ch: ChannelView) -> Option<
    Seq<PermissionOverwrite>,
> {
    match ch {
        ChannelView::Thread(t) => if c.channels.contains_key(t.parent_id) {
            Some(c.channels[t.parent_id].overwrites())
        } else {
            None
        },
        _ => Some(ch.overwrites()),
    }
}

/// Channel-level resolved permissions of a member, together with the channel
/// kind used by callers to pick the correct "send" bit. Nothing on a cache
/// miss.
pub open spec fn spec_channel_permissions(
    c: CacheView,
    guild_id: u64,
    member_id: u64,
    roles: Seq<u64>,
    channel_id: u64,
) -> Option<(u64, ChannelType)> {
    if !c.guilds.contains_key(guild_id) || !c.channels.contains_key(channel_id) {
        None
    } else {
        let ch = c.channels[channel_id];
        let kind = ch.kind();
        if member_id == c.guilds[guild_id].owner_id {
            Some((PERMISSIONS_ALL, kind))
        } else {
            match spec_base_permissions(c, guild_id, roles) {
                None => None,
                Some(base) => if base & PERMISSION_ADMINISTRATOR == PERMISSION_ADMINISTRATOR {
                    Some((PERMISSIONS_ALL, kind))
                } else {
                    match spec_channel_overwrites(c, ch) {
                        None => None,
                        Some(ows) => Some(
                            (spec_apply_overwrites(base, ows, guild_id, member_id, roles), kind),
                        ),
                    }
                },
            }
        }
    }
}

/// The highest role position among the given roles, used for hierarchy
/// comparisons; the `@everyone` baseline is position zero. Nothing on a
/// cache miss.
pub open spec fn spec_highest_role_position(c: CacheView, roles: Seq<u64>) -> Option<i64>
    decreases roles.len(),
{
    if roles.len() == 0 {
        Some(0i64)
    } else {
        match spec_highest_role_position(c, roles.drop_last()) {
            None => None,
            Some(acc) => if c.roles.contains_key(roles.last()) {
                if c.roles[roles.last()].position > acc {
                    Some(c.roles[roles.last()].position)
                } else {
                    Some(acc)
                }
            } else {
                None
            },
        }
    }
}

/// A missing role makes the whole union a cache miss.
proof fn lemma_roles_union_missing(c: CacheView, roles: Seq<u64>, i: int)
    requires
        0 <= i < roles.len(),
        !c.roles.contains_key(roles[i]),
    ensures
        spec_roles_union(c, roles) is None,
    decreases roles.len(),
{
    if i == roles.len() - 1 {
    } else {
        lemma_roles_union_missing(c, roles.drop_last(), i);
    }
}

/// A missing role makes the whole highest-position query a cache miss.
proof fn lemma_highest_missing(c: CacheView, roles: Seq<u64>, i: int)
    requires
        0 <= i < roles.len(),
        !c.roles.contains_key(roles[i]),
    ensures
        spec_highest_role_position(c, roles) is None,
    decreases roles.len(),
{
    if i == roles.len() - 1 {
    } else {
        lemma_highest_missing(c, roles.drop_last(), i);
    }
}

/// Skipping a prefix without matches does not change the first matching
/// overwrite.
proof fn lemma_find_overwrite_skip(
    ows: Seq<PermissionOverwrite>,
    kind: PermissionOverwriteType,
    id: u64,
    i: int,
)
    requires
        0 <= i <= ows.len(),
        forall|j: int| 0 <= j < i ==> !(ows[j].kind == kind && ows[j].id == id),
    ensures
        spec_find_overwrite(ows, kind, id) == spec_find_overwrite(ows.skip(i), kind, id),
    decreases i,
{
    if i == 0 {
        assert(ows.skip(0) =~= ows);
    } else {
        lemma_find_overwrite_skip(ows, kind, id, i - 1);
        assert(ows.skip(i - 1).first() == ows[i - 1]);
        assert(ows.skip(i - 1).drop_first() =~= ows.skip(i));
    }
}

/// The first overwrite in the list targeting the given kind and id.
fn find_overwrite(ows: &Vec<PermissionOverwrite>, kind: PermissionOverwriteType, id: u64) -> (r:
    Option<PermissionOverwrite>)
    ensures
        r == spec_find_overwrite(ows@, kind, id),
{
    let mut i: usize = 0;
    while i < ows.len()
        invariant
            i <= ows.len(),
            forall|j: int| 0 <= j < i ==> !(ows@[j].kind == kind && ows@[j].id == id),
        decreases ows.len() - i,
    {
        let ow = ows[i];
        if matches!((ow.kind, kind), (PermissionOverwriteType::Role, PermissionOverwriteType::Role)
            | (PermissionOverwriteType::Member, PermissionOverwriteType::Member)) && ow.id == id {
            proof {
                lemma_find_overwrite_skip(ows@, kind, id, i as int);
                assert(ows@.skip(i as int).first() == ows@[i as int]);
            }
            return Some(ow);
        }
        i = i + 1;
    }
    proof {
        lemma_find_overwrite_skip(ows@, kind, id, ows@.len() as int);
        assert(ows@.skip(ows@.len() as int) =~= Seq::<PermissionOverwrite>::empty());
    }
    None
}

/// The combined (allow, deny) masks of every role overwrite matching a role
/// the member holds.
fn role_overwrites_union(ows: &Vec<PermissionOverwrite>, roles: &Vec<u64>) -> (r: (u64, u64))
    ensures
        r == spec_role_overwrites_union(ows@, roles@),
{
    let mut allow: u64 = 0;
    let mut deny: u64 = 0;
    let mut i: usize = 0;
    while i < ows.len()
        invariant
            i <= ows.len(),
            (allow, deny) == spec_role_overwrites_union(ows@.take(i as int), roles@),
        decreases ows.len() - i,
    {
        proof {
            assert(ows@.take(i + 1 as int) =~= ows@.take(i as int).push(ows@[i as int]));
            assert(ows@.take(i + 1 as int).drop_last() =~= ows@.take(i as int));
        }
        let ow = ows[i];
        if matches!(ow.kind, PermissionOverwriteType::Role) && crate::event::contains_id(
            roles,
            ow.id,
        ) {
            allow = allow | ow.allow;
            deny = deny | ow.deny;
        }
        i = i + 1;
    }
    proof {
        assert(ows@.take(ows@.len() as int) =~= ows@);
    }
    (allow, deny)
}

/// Apply a channel's overwrite list to a base bitmask.
fn apply_overwrites(
    base: u64,
    ows: &Vec<PermissionOverwrite>,
    everyone_id: u64,
    member_id: u64,
    roles: &Vec<u64>,
) -> (r: u64)
    ensures
        r == spec_apply_overwrites(base, ows@, everyone_id, member_id, roles@),
{
    let p0 = match find_overwrite(ows, PermissionOverwriteType::Role, everyone_id) {
        Some(ow) => (base & !ow.deny) | ow.allow,
        None => base,
    };
    let (allow, deny) = role_overwrites_union(ows, roles);
    let p1 = (p0 & !deny) | allow;
    match find_overwrite(ows, PermissionOverwriteType::Member, member_id) {
        Some(ow) => (p1 & !ow.deny) | ow.allow,
        None => p1,
    }
}

impl InMemoryCache {
    /// The union of the bitmasks of the given roles, or nothing if one of
    /// them is not cached.
    fn roles_union(&self, roles: &Vec<u64>) -> (r: Option<u64>)
        ensures
            r == spec_roles_union(self@, roles@),
    {
        let mut acc: u64 = 0;
        let mut i: usize = 0;
        while i < roles.len()
            invariant
                i <= roles.len(),
                Some(acc) == spec_roles_union(self@, roles@.take(i as int)),
            decreases roles.len() - i,
        {
            proof {
                assert(roles@.take(i + 1 as int) =~= roles@.take(i as int).push(
                    roles@[i as int],
                ));
                assert(roles@.take(i + 1 as int).drop_last() =~= roles@.take(i as int));
            }
            match self.get_role(roles[i]) {
                Some(role) => {
                    acc = acc | role.permissions;
                },
                None => {
                    proof {
                        lemma_roles_union_missing(self@, roles@, i as int);
                    }
                    return None;
                },
            }
            i = i + 1;
        }
        proof {
            assert(roles@.take(roles@.len() as int) =~= roles@);
        }
        Some(acc)
    }

    /// Base permissions of a member in a guild (resolution steps 1 and 2,
    /// before owner and administrator bypass).
    fn base_permissions(&self, guild_id: u64, roles: &Vec<u64>) -> (r: Option<u64>)
        ensures
            r == spec_base_permissions(self@, guild_id, roles@),
    {
        let everyone = match self.get_role(guild_id) {
            Some(role) => role.permissions,
            None => {
                return None;
            },
        };
        match self.roles_union(roles) {
            Some(u) => Some(u | everyone),
            None => None,
        }
    }

    /// Guild-level resolved permissions of a member: the full set for the
    /// owner or an administrator, the base union otherwise, nothing on a
    /// cache miss.
    pub fn guild_permissions(&self, guild_id: u64, member_id: u64, roles: &Vec<u64>) -> (r: Option<
        u64,
    >)
        ensures
            r == spec_guild_permissions(self@, guild_id, member_id, roles@),
    {
        let guild = match self.get_guild(guild_id) {
            Some(guild) => guild,
            None => {
                return None;
            },
        };
        if member_id == guild.owner_id {
            return Some(PERMISSIONS_ALL);
        }
        match self.base_permissions(guild_id, roles) {
            Some(base) => if base & PERMISSION_ADMINISTRATOR == PERMISSION_ADMINISTRATOR {
                Some(PERMISSIONS_ALL)
            } else {
                Some(base)
            },
            None => None,
        }
    }

    /// Channel-level resolved permissions of a member, with the channel kind
    /// callers use to pick the correct "send" bit. A thread resolves against
    /// its parent's overwrite list. Nothing on a cache miss.
    pub fn channel_permissions(
        &self,
        guild_id: u64,
        member_id: u64,
        roles: &Vec<u64>,
        channel_id: u64,
    ) -> (r: Option<(u64, ChannelType)>)
        ensures
            r == spec_channel_permissions(self@, guild_id, member_id, roles@, channel_id),
    {
        let guild = match self.get_guild(guild_id) {
            Some(guild) => guild,
            None => {
                return None;
            },
        };
        let channel = match self.get_channel(channel_id) {
            Some(channel) => channel,
            None => {
                return None;
            },
        };
        let kind = channel.kind();
        if member_id == guild.owner_id {
            return Some((PERMISSIONS_ALL, kind));
        }
        let base = match self.base_permissions(guild_id, roles) {
            Some(base) => base,
            None => {
                return None;
            },
        };
        if base & PERMISSION_ADMINISTRATOR == PERMISSION_ADMINISTRATOR {
            return Some((PERMISSIONS_ALL, kind));
        }
        let ows = match channel {
            CachedChannel::Thread(thread) => match self.get_channel(thread.parent_id) {
                Some(parent) => parent.permissions(),
                None => {
                    return None;
                },
            },
            _ => channel.permissions(),
        };
        Some((apply_overwrites(base, &ows, guild_id, member_id, roles), kind))
    }

    /// The highest role position among the given roles, for hierarchy
    /// comparisons; a role with a strictly higher position outranks the
    /// other. Nothing on a cache miss.
    pub fn highest_role_position(&self, roles: &Vec<u64>) -> (r: Option<i64>)
        ensures
            r == spec_highest_role_position(self@, roles@),
    {
        let mut acc: i64 = 0;
        let mut i: usize = 0;
        while i < roles.len()
            invariant
                i <= roles.len(),
                Some(acc) == spec_highest_role_position(self@, roles@.take(i as int)),
            decreases roles.len() - i,
        {
            proof {
                assert(roles@.take(i + 1 as int) =~= roles@.take(i as int).push(
                    roles@[i as int],
                ));
                assert(roles@.take(i + 1 as int).drop_last() =~= roles@.take(i as int));
            }
            match self.get_role(roles[i]) {
                Some(role) => {
                    if role.position > acc {
                        acc = role.position;
                    }
                },
                None => {
                    proof {
                        lemma_highest_missing(self@, roles@, i as int);
                    }
                    return None;
                },
            }
            i = i + 1;
        }
        proof {
            assert(roles@.take(roles@.len() as int) =~= roles@);
        }
        Some(acc)
    }

    /// Whether the member owns the guild; nothing when the guild is not
    /// cached.
    pub fn is_guild_owner(&self, guild_id: u64, member_id: u64) -> (r: Option<bool>)
        ensures
            r == (if self@.guilds.contains_key(guild_id) {
                Some(member_id == self@.guilds[guild_id].owner_id)
            } else {
                None::<bool>
            }),
    {
        match self.get_guild(guild_id) {
            Some(guild) => Some(member_id == guild.owner_id),
            None => None,
        }
    }
}

/// The union of a role list includes every bit of each listed role.
proof fn lemma_roles_union_includes(c: CacheView, roles: Seq<u64>, i: int)
    requires
        0 <= i < roles.len(),
        forall|j: int| 0 <= j < roles.len() ==> c.roles.contains_key(roles[j]),
    ensures
        spec_roles_union(c, roles) matches Some(u) && u | c.roles[roles[i]].permissions == u,
    decreases roles.len(),
{
    let p = c.roles[roles[i]].permissions;
    if i == roles.len() - 1 {
        if roles.len() == 1 {
            assert((0u64 | p) | p == 0u64 | p) by (bit_vector);
        } else {
            lemma_roles_union_includes(c, roles.drop_last(), 0);
            let acc = spec_roles_union(c, roles.drop_last())->Some_0;
            assert((acc | p) | p == acc | p) by (bit_vector);
        }
    } else {
        lemma_roles_union_includes(c, roles.drop_last(), i);
        let acc = spec_roles_union(c, roles.drop_last())->Some_0;
        let q = c.roles[roles.last()].permissions;
        assert(acc | p == acc ==> (acc | q) | p == acc | q) by (bit_vector);
    }
}

/// Administrator bypass: if any role held by a member carries the
/// administrator bit, the resolver returns the full permission set for that
/// member in every channel of the guild, regardless of overwrites that would
/// otherwise deny access, and at guild level as well.
pub proof fn lemma_administrator_bypass(
    c: CacheView,
    guild_id: u64,
    member_id: u64,
    roles: Seq<u64>,
    channel_id: u64,
    i: int,
)
    requires
        c.guilds.contains_key(guild_id),
        c.channels.contains_key(channel_id),
        c.roles.contains_key(guild_id),
        forall|j: int| 0 <= j < roles.len() ==> c.roles.contains_key(roles[j]),
        0 <= i < roles.len(),
        c.roles[roles[i]].permissions & PERMISSION_ADMINISTRATOR == PERMISSION_ADMINISTRATOR,
    ensures
        spec_guild_permissions(c, guild_id, member_id, roles) == Some(PERMISSIONS_ALL),
        spec_channel_permissions(c, guild_id, member_id, roles, channel_id) == Some(
            (PERMISSIONS_ALL, c.channels[channel_id].kind()),
        ),
{
    lemma_roles_union_includes(c, roles, i);
    let u = spec_roles_union(c, roles)->Some_0;
    let p = c.roles[roles[i]].permissions;
    let e = c.roles[guild_id].permissions;
    assert(u | p == u && p & 0x8u64 == 0x8u64 ==> (u | e) & 0x8u64 == 0x8u64) by (bit_vector);
}

/// Owner bypass: a member whose id equals the guild's owner id receives the
/// full permission set, regardless of role or overwrite state.
pub proof fn lemma_owner_bypass(
    c: CacheView,
    guild_id: u64,
    member_id: u64,
    roles: Seq<u64>,
    channel_id: u64,
)
    requires
        c.guilds.contains_key(guild_id),
        c.channels.contains_key(channel_id),
        member_id == c.guilds[guild_id].owner_id,
    ensures
        spec_guild_permissions(c, guild_id, member_id, roles) == Some(PERMISSIONS_ALL),
        spec_channel_permissions(c, guild_id, member_id, roles, channel_id) == Some(
            (PERMISSIONS_ALL, c.channels[channel_id].kind()),
        ),
{
}

/// Overwrite precedence, first half: an `@everyone` deny of a bit is
/// overridden by a role-specific allow of the same bit for a role the member
/// holds, as long as no member-specific overwrite denies it again.
pub proof fn lemma_role_overwrite_wins(
    base: u64,
    ows: Seq<PermissionOverwrite>,
    everyone_id: u64,
    member_id: u64,
    roles: Seq<u64>,
    bit: u64,
)
    requires
        spec_find_overwrite(ows, PermissionOverwriteType::Role, everyone_id) matches Some(eo)
            && eo.deny & bit == bit,
        spec_role_overwrites_union(ows, roles).0 & bit == bit,
        match spec_find_overwrite(ows, PermissionOverwriteType::Member, member_id) {
            Some(mo) => mo.deny & bit == 0,
            None => true,
        },
    ensures
        spec_apply_overwrites(base, ows, everyone_id, member_id, roles) & bit == bit,
{
    let p0 = match spec_find_overwrite(ows, PermissionOverwriteType::Role, everyone_id) {
        Some(ow) => (base & !ow.deny) | ow.allow,
        None => base,
    };
    let ra = spec_role_overwrites_union(ows, roles).0;
    let rd = spec_role_overwrites_union(ows, roles).1;
    let p1 = (p0 & !rd) | ra;
    assert(ra & bit == bit ==> ((p0 & !rd) | ra) & bit == bit) by (bit_vector);
    match spec_find_overwrite(ows, PermissionOverwriteType::Member, member_id) {
        Some(mo) => {
            let md = mo.deny;
            let ma = mo.allow;
            assert(p1 & bit == bit && md & bit == 0 ==> ((p1 & !md) | ma) & bit == bit)
                by (bit_vector);
        },
        None => {
        },
    }
}

/// Overwrite precedence, second half: a member-specific deny of a bit
/// overrides both the `@everyone` and the role overwrites.
pub proof fn lemma_member_deny_overrides(
    base: u64,
    ows: Seq<PermissionOverwrite>,
    everyone_id: u64,
    member_id: u64,
    roles: Seq<u64>,
    bit: u64,
)
    requires
        spec_find_overwrite(ows, PermissionOverwriteType::Member, member_id) matches Some(mo)
            && mo.deny & bit == bit && mo.allow & bit == 0,
        bit != 0,
    ensures
        spec_apply_overwrites(base, ows, everyone_id, member_id, roles) & bit == 0,
{
    let p0 = match spec_find_overwrite(ows, PermissionOverwriteType::Role, everyone_id) {
        Some(ow) => (base & !ow.deny) | ow.allow,
        None => base,
    };
    let ru = spec_role_overwrites_union(ows, roles);
    let p1 = (p0 & !ru.1) | ru.0;
    let mo = spec_find_overwrite(ows, PermissionOverwriteType::Member, member_id)->Some_0;
    let md = mo.deny;
    let ma = mo.allow;
    assert(md & bit == bit && ma & bit == 0 ==> ((p1 & !md) | ma) & bit == 0) by (bit_vector);
}

/// Thread inheritance: a thread (which carries no overwrites of its own)
/// resolves to exactly the permissions of its parent channel, and its kind
/// always classifies as the generic public-thread tag, even when the thread
/// is private.
pub proof fn lemma_thread_inheritance(
    c: CacheView,
    guild_id: u64,
    member_id: u64,
    roles: Seq<u64>,
    thread_id: u64,
)
    requires
        c.guilds.contains_key(guild_id),
        c.channels.contains_key(thread_id),
        c.channels[thread_id] matches ChannelView::Thread(t) && c.channels.contains_key(
            t.parent_id,
        ) && !(c.channels[t.parent_id] is Thread),
    ensures
        ({
            let t = c.channels[thread_id]->Thread_0;
            let thread_res = spec_channel_permissions(c, guild_id, member_id, roles, thread_id);
            let parent_res = spec_channel_permissions(c, guild_id, member_id, roles, t.parent_id);
            &&& thread_res is Some <==> parent_res is Some
            &&& thread_res matches Some(tr) ==> parent_res matches Some(pr) && tr.0 == pr.0
                && tr.1 == ChannelType::GuildPublicThread
        }),
{
    let t = c.channels[thread_id]->Thread_0;
    let parent = c.channels[t.parent_id];
    assert(c.channels[thread_id].overwrites() =~= Seq::<PermissionOverwrite>::empty());
    assert(spec_channel_overwrites(c, c.channels[thread_id]) == Some(parent.overwrites()));
    assert(spec_channel_overwrites(c, parent) == Some(parent.overwrites()));
}

} // verus!
