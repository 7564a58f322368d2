//! Tests of the permission resolver.

use raidprotect::cache::InMemoryCache;
use raidprotect::model::{
    CachedChannel, CachedGuild, CachedRole, CachedTextChannel, CachedThread, ChannelType,
    PermissionOverwrite, PermissionOverwriteType,
};
use raidprotect::permission::{
    PERMISSIONS_ALL, PERMISSION_ADMINISTRATOR, PERMISSION_SEND_MESSAGES, PERMISSION_VIEW_CHANNEL,
};

const BOT_ID: u64 = 999;
const GUILD: u64 = 1;
const OWNER: u64 = 42;

fn guild(owner_id: u64) -> CachedGuild {
    CachedGuild {
        id: GUILD,
        name: "guild".to_string(),
        icon: None,
        owner_id,
        unavailable: false,
        channels: vec![],
        roles: vec![],
        current_member: None,
    }
}

fn role(id: u64, permissions: u64, position: i64) -> CachedRole {
    CachedRole {
        id,
        guild_id: GUILD,
        permissions,
        position,
        color: 0,
        mentionable: false,
    }
}

fn text_channel(id: u64, overwrites: Vec<PermissionOverwrite>) -> CachedChannel {
    CachedChannel::Text(CachedTextChannel {
        id,
        guild_id: GUILD,
        name: format!("channel-{id}"),
        parent_id: None,
        position: 0,
        permission_overwrites: overwrites,
        rate_limit_per_user: None,
    })
}

fn base_cache() -> InMemoryCache {
    let mut cache = InMemoryCache::new(BOT_ID);
    cache.upsert_guild(guild(OWNER));
    // The `@everyone` role has the guild's id.
    cache.upsert_role(role(GUILD, PERMISSION_VIEW_CHANNEL, 0));
    cache
}

#[test]
fn base_permissions_are_the_role_union() {
    let mut cache = base_cache();
    cache.upsert_role(role(20, PERMISSION_SEND_MESSAGES, 1));
    let perms = cache.guild_permissions(GUILD, 5, &vec![20]).expect("resolved");
    assert_eq!(perms, PERMISSION_VIEW_CHANNEL | PERMISSION_SEND_MESSAGES);
}

#[test]
fn administrator_bypass_ignores_overwrites() {
    let mut cache = base_cache();
    cache.upsert_role(role(20, PERMISSION_ADMINISTRATOR, 1));
    // A channel overwrite explicitly denies viewing for that very role.
    cache.upsert_channel(text_channel(
        10,
        vec![PermissionOverwrite {
            id: 20,
            kind: PermissionOverwriteType::Role,
            allow: 0,
            deny: PERMISSION_VIEW_CHANNEL,
        }],
    ));

    let (perms, kind) = cache
        .channel_permissions(GUILD, 5, &vec![20], 10)
        .expect("resolved");
    // The administrator bit short-circuits before overwrites run.
    assert_eq!(perms, PERMISSIONS_ALL);
    assert_ne!(perms & PERMISSION_VIEW_CHANNEL, 0);
    assert_eq!(kind, ChannelType::GuildText);
    assert_eq!(
        cache.guild_permissions(GUILD, 5, &vec![20]),
        Some(PERMISSIONS_ALL)
    );
}

#[test]
fn owner_bypass_ignores_roles_and_overwrites() {
    let mut cache = base_cache();
    cache.upsert_channel(text_channel(
        10,
        vec![PermissionOverwrite {
            id: GUILD,
            kind: PermissionOverwriteType::Role,
            allow: 0,
            deny: PERMISSIONS_ALL,
        }],
    ));
    let (perms, _) = cache
        .channel_permissions(GUILD, OWNER, &vec![], 10)
        .expect("resolved");
    assert_eq!(perms, PERMISSIONS_ALL);
    assert_eq!(cache.guild_permissions(GUILD, OWNER, &vec![]), Some(PERMISSIONS_ALL));
}

#[test]
fn role_overwrite_wins_over_everyone_deny() {
    let mut cache = base_cache();
    cache.upsert_role(role(20, 0, 1));
    cache.upsert_channel(text_channel(
        10,
        vec![
            PermissionOverwrite {
                id: GUILD,
                kind: PermissionOverwriteType::Role,
                allow: 0,
                deny: PERMISSION_VIEW_CHANNEL,
            },
            PermissionOverwrite {
                id: 20,
                kind: PermissionOverwriteType::Role,
                allow: PERMISSION_VIEW_CHANNEL,
                deny: 0,
            },
        ],
    ));
    let (perms, _) = cache
        .channel_permissions(GUILD, 5, &vec![20], 10)
        .expect("resolved");
    assert_eq!(perms & PERMISSION_VIEW_CHANNEL, PERMISSION_VIEW_CHANNEL);
}

#[test]
fn member_deny_overrides_role_allow() {
    let mut cache = base_cache();
    cache.upsert_role(role(20, 0, 1));
    cache.upsert_channel(text_channel(
        10,
        vec![
            PermissionOverwrite {
                id: GUILD,
                kind: PermissionOverwriteType::Role,
                allow: 0,
                deny: PERMISSION_VIEW_CHANNEL,
            },
            PermissionOverwrite {
                id: 20,
                kind: PermissionOverwriteType::Role,
                allow: PERMISSION_VIEW_CHANNEL,
                deny: 0,
            },
            PermissionOverwrite {
                id: 5,
                kind: PermissionOverwriteType::Member,
                allow: 0,
                deny: PERMISSION_VIEW_CHANNEL,
            },
        ],
    ));
    let (perms, _) = cache
        .channel_permissions(GUILD, 5, &vec![20], 10)
        .expect("resolved");
    assert_eq!(perms & PERMISSION_VIEW_CHANNEL, 0);
}

#[test]
fn thread_inherits_parent_resolution() {
    let mut cache = base_cache();
    cache.upsert_role(role(20, 0, 1));
    let overwrites = vec![PermissionOverwrite {
        id: 20,
        kind: PermissionOverwriteType::Role,
        allow: PERMISSION_SEND_MESSAGES,
        deny: PERMISSION_VIEW_CHANNEL,
    }];
    cache.upsert_channel(text_channel(10, overwrites));
    cache.upsert_channel(CachedChannel::Thread(CachedThread {
        id: 50,
        guild_id: GUILD,
        name: "thread".to_string(),
        private: true,
        parent_id: 10,
        rate_limit_per_user: None,
    }));

    let (parent_perms, parent_kind) = cache
        .channel_permissions(GUILD, 5, &vec![20], 10)
        .expect("parent resolved");
    let (thread_perms, thread_kind) = cache
        .channel_permissions(GUILD, 5, &vec![20], 50)
        .expect("thread resolved");
    assert_eq!(thread_perms, parent_perms);
    assert_eq!(parent_kind, ChannelType::GuildText);
    // The generic thread tag is reported even though the thread is private.
    assert_eq!(thread_kind, ChannelType::GuildPublicThread);
}

#[test]
fn cache_misses_resolve_to_nothing() {
    let cache = InMemoryCache::new(BOT_ID);
    assert_eq!(cache.guild_permissions(7, 5, &vec![]), None);

    let mut cache = base_cache();
    // Unknown channel.
    assert_eq!(cache.channel_permissions(GUILD, 5, &vec![], 10), None);
    // Unknown role in the member's list.
    cache.upsert_channel(text_channel(10, vec![]));
    assert_eq!(cache.channel_permissions(GUILD, 5, &vec![21], 10), None);
    // Thread whose parent left the cache.
    cache.upsert_channel(CachedChannel::Thread(CachedThread {
        id: 50,
        guild_id: GUILD,
        name: "thread".to_string(),
        private: false,
        parent_id: 11,
        rate_limit_per_user: None,
    }));
    assert_eq!(cache.channel_permissions(GUILD, 5, &vec![], 50), None);
}

#[test]
fn highest_role_position_takes_the_maximum() {
    let mut cache = base_cache();
    cache.upsert_role(role(20, 0, 3));
    cache.upsert_role(role(21, 0, 7));
    cache.upsert_role(role(22, 0, 5));
    assert_eq!(cache.highest_role_position(&vec![20, 21, 22]), Some(7));
    // No roles: the `@everyone` baseline, position zero.
    assert_eq!(cache.highest_role_position(&vec![]), Some(0));
    // A missing role is a cache miss.
    assert_eq!(cache.highest_role_position(&vec![20, 99]), None);
}

#[test]
fn is_guild_owner_reads_the_cached_owner() {
    let cache = base_cache();
    assert_eq!(cache.is_guild_owner(GUILD, OWNER), Some(true));
    assert_eq!(cache.is_guild_owner(GUILD, 5), Some(false));
    assert_eq!(cache.is_guild_owner(9, OWNER), None);
}
