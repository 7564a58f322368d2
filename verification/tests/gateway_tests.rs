//! Tests of the guarded action gateway.

use raidprotect::cache::InMemoryCache;
use raidprotect::gateway::{CacheHttp, CacheHttpError, PermissionError};
use raidprotect::model::{
    CachedChannel, CachedGuild, CachedRole, CachedTextChannel, CachedThread, CurrentMember,
};
use raidprotect::permission::{
    PERMISSION_EMBED_LINKS, PERMISSION_MANAGE_CHANNELS, PERMISSION_SEND_MESSAGES,
    PERMISSION_SEND_MESSAGES_IN_THREADS, PERMISSION_USE_EXTERNAL_EMOJIS,
};

const BOT_ID: u64 = 999;
const GUILD: u64 = 1;

fn cache_with_bot(everyone_permissions: u64) -> InMemoryCache {
    let mut cache = InMemoryCache::new(BOT_ID);
    cache.upsert_guild(CachedGuild {
        id: GUILD,
        name: "guild".to_string(),
        icon: None,
        owner_id: 42,
        unavailable: false,
        channels: vec![10],
        roles: vec![],
        current_member: Some(CurrentMember {
            id: BOT_ID,
            communication_disabled_until: None,
            roles: vec![],
        }),
    });
    cache.upsert_role(CachedRole {
        id: GUILD,
        guild_id: GUILD,
        permissions: everyone_permissions,
        position: 0,
        color: 0,
        mentionable: false,
    });
    cache.upsert_channel(CachedChannel::Text(CachedTextChannel {
        id: 10,
        guild_id: GUILD,
        name: "general".to_string(),
        parent_id: None,
        position: 0,
        permission_overwrites: vec![],
        rate_limit_per_user: None,
    }));
    cache
}

#[test]
fn create_message_succeeds_with_the_send_bits() {
    let cache = cache_with_bot(
        PERMISSION_SEND_MESSAGES | PERMISSION_USE_EXTERNAL_EMOJIS | PERMISSION_EMBED_LINKS,
    );
    let gateway = CacheHttp::new(GUILD);
    let request = gateway.create_message(&cache, 10).expect("authorized");
    assert_eq!(request.channel_id, 10);
}

#[test]
fn create_message_requires_the_thread_bit_in_threads() {
    let mut cache = cache_with_bot(
        PERMISSION_SEND_MESSAGES | PERMISSION_USE_EXTERNAL_EMOJIS | PERMISSION_EMBED_LINKS,
    );
    cache.upsert_channel(CachedChannel::Thread(CachedThread {
        id: 50,
        guild_id: GUILD,
        name: "thread".to_string(),
        private: false,
        parent_id: 10,
        rate_limit_per_user: None,
    }));
    let gateway = CacheHttp::new(GUILD);
    // The regular send bit is not enough inside a thread.
    assert_eq!(
        gateway.create_message(&cache, 50),
        Err(CacheHttpError::CreateMessage)
    );

    let mut cache = cache_with_bot(
        PERMISSION_SEND_MESSAGES_IN_THREADS | PERMISSION_USE_EXTERNAL_EMOJIS
            | PERMISSION_EMBED_LINKS,
    );
    cache.upsert_channel(CachedChannel::Thread(CachedThread {
        id: 50,
        guild_id: GUILD,
        name: "thread".to_string(),
        private: false,
        parent_id: 10,
        rate_limit_per_user: None,
    }));
    let request = gateway.create_message(&cache, 50).expect("authorized");
    assert_eq!(request.channel_id, 50);
}

#[test]
fn create_message_denies_without_embed_links() {
    let cache = cache_with_bot(PERMISSION_SEND_MESSAGES | PERMISSION_USE_EXTERNAL_EMOJIS);
    let gateway = CacheHttp::new(GUILD);
    assert_eq!(
        gateway.create_message(&cache, 10),
        Err(CacheHttpError::CreateMessage)
    );
}

#[test]
fn create_message_treats_missing_data_as_cache_miss() {
    let gateway = CacheHttp::new(GUILD);

    // Unknown guild.
    let cache = InMemoryCache::new(BOT_ID);
    assert_eq!(
        gateway.create_message(&cache, 10),
        Err(CacheHttpError::Permission(PermissionError::CacheMiss))
    );

    // Guild cached, but the bot's own membership is not.
    let mut cache = InMemoryCache::new(BOT_ID);
    cache.upsert_guild(CachedGuild {
        id: GUILD,
        name: "guild".to_string(),
        icon: None,
        owner_id: 42,
        unavailable: false,
        channels: vec![],
        roles: vec![],
        current_member: None,
    });
    assert_eq!(
        gateway.create_message(&cache, 10),
        Err(CacheHttpError::Permission(PermissionError::CacheMiss))
    );

    // Unknown channel.
    let cache = cache_with_bot(PERMISSION_SEND_MESSAGES);
    assert_eq!(
        gateway.create_message(&cache, 11),
        Err(CacheHttpError::Permission(PermissionError::CacheMiss))
    );
}

#[test]
fn create_guild_channel_requires_manage_channels() {
    let cache = cache_with_bot(PERMISSION_SEND_MESSAGES);
    let gateway = CacheHttp::new(GUILD);
    assert_eq!(
        gateway.create_guild_channel(&cache, "logs"),
        Err(CacheHttpError::CreateGuildChannel)
    );

    let cache = cache_with_bot(PERMISSION_MANAGE_CHANNELS);
    let request = gateway.create_guild_channel(&cache, "logs").expect("authorized");
    assert_eq!(request.guild_id, GUILD);
    assert_eq!(request.name, "logs");
}

#[test]
fn create_guild_channel_validates_the_name() {
    let cache = cache_with_bot(PERMISSION_MANAGE_CHANNELS);
    let gateway = CacheHttp::new(GUILD);
    assert_eq!(
        gateway.create_guild_channel(&cache, ""),
        Err(CacheHttpError::ChannelValidation)
    );
    let long = "x".repeat(101);
    assert_eq!(
        gateway.create_guild_channel(&cache, &long),
        Err(CacheHttpError::ChannelValidation)
    );
    let exactly_hundred = "x".repeat(100);
    assert!(gateway.create_guild_channel(&cache, &exactly_hundred).is_ok());
}
