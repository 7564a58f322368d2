//! Tests of the logs-channel coordination, the mirror key scheme and the
//! command decisions.

use raidprotect::cache::InMemoryCache;
use raidprotect::command::{kick_decision, snowflake_timestamp, snowflake_timestamp_secs, KickDecision};
use raidprotect::logs_channel::{
    create_logs_channel_plan, find_logs_channel, guild_logs_channel_action, CreateLogsChannelPlan,
    LogsChannelAction, PendingChannels, DEFAULT_LOGS_NAME,
};
use raidprotect::model::{
    CachedCategoryChannel, CachedChannel, CachedGuild, CachedRole, CachedTextChannel, ChannelType,
    PermissionOverwriteType,
};
use raidprotect::permission::{PERMISSION_KICK_MEMBERS, PERMISSION_VIEW_CHANNEL};

const BOT_ID: u64 = 999;
const GUILD: u64 = 1;

fn text_channel(id: u64, name: &str) -> CachedChannel {
    CachedChannel::Text(CachedTextChannel {
        id,
        guild_id: GUILD,
        name: name.to_string(),
        parent_id: None,
        position: 0,
        permission_overwrites: vec![],
        rate_limit_per_user: None,
    })
}

#[test]
fn find_logs_channel_matches_text_channels_by_name() {
    let channels = vec![
        text_channel(10, "general"),
        CachedChannel::Category(CachedCategoryChannel {
            id: 11,
            guild_id: GUILD,
            name: DEFAULT_LOGS_NAME.to_string(),
            position: 0,
            permission_overwrites: vec![],
        }),
        text_channel(12, DEFAULT_LOGS_NAME),
        text_channel(13, DEFAULT_LOGS_NAME),
    ];
    // The category with the right name does not count; the first matching
    // text channel wins.
    assert_eq!(find_logs_channel(&channels), Some(12));
    assert_eq!(find_logs_channel(&vec![text_channel(10, "general")]), None);
}

#[test]
fn create_plan_reuses_or_describes_a_hidden_channel() {
    let existing = vec![text_channel(12, DEFAULT_LOGS_NAME)];
    match create_logs_channel_plan(GUILD, &existing) {
        CreateLogsChannelPlan::Reuse(id) => assert_eq!(id, 12),
        other => panic!("unexpected plan: {other:?}"),
    }

    match create_logs_channel_plan(GUILD, &vec![text_channel(10, "general")]) {
        CreateLogsChannelPlan::CreateNew(req) => {
            assert_eq!(req.guild_id, GUILD);
            assert_eq!(req.name, DEFAULT_LOGS_NAME);
            assert_eq!(req.kind, ChannelType::GuildText);
            assert_eq!(req.permission_overwrites.len(), 1);
            let overwrite = req.permission_overwrites[0];
            assert_eq!(overwrite.id, GUILD);
            assert_eq!(overwrite.kind, PermissionOverwriteType::Role);
            assert_eq!(overwrite.allow, 0);
            assert_eq!(overwrite.deny, PERMISSION_VIEW_CHANNEL);
        },
        other => panic!("unexpected plan: {other:?}"),
    }
}

#[test]
fn single_flight_allows_exactly_one_creation() {
    let mut pending = PendingChannels::new();
    // The first caller claims the key; every concurrent caller is told to
    // wait for the shared result.
    assert!(pending.acquire(GUILD));
    assert!(!pending.acquire(GUILD));
    assert!(!pending.acquire(GUILD));
    // Another guild's key is independent.
    assert!(pending.acquire(2));
    // After the broadcast the entry is released and a fresh attempt may
    // retry from scratch.
    pending.release(GUILD);
    assert!(pending.acquire(GUILD));
}

#[test]
fn logs_channel_action_prefers_the_configured_channel() {
    let mut cache = InMemoryCache::new(BOT_ID);
    let mut pending = PendingChannels::new();

    // No configured channel and no in-flight creation: create.
    assert_eq!(
        guild_logs_channel_action(&cache, &pending, GUILD, None),
        LogsChannelAction::Create
    );

    // A configured channel that is no longer cached does not count.
    assert_eq!(
        guild_logs_channel_action(&cache, &pending, GUILD, Some(12)),
        LogsChannelAction::Create
    );

    // A cached configured channel is used directly.
    cache.upsert_channel(text_channel(12, DEFAULT_LOGS_NAME));
    assert_eq!(
        guild_logs_channel_action(&cache, &pending, GUILD, Some(12)),
        LogsChannelAction::Existing(12)
    );

    // An in-flight creation makes callers wait.
    assert!(pending.acquire(GUILD));
    assert_eq!(
        guild_logs_channel_action(&cache, &pending, GUILD, None),
        LogsChannelAction::Wait
    );
}

#[test]
fn guild_channels_lists_cached_entities() {
    let mut cache = InMemoryCache::new(BOT_ID);
    cache.upsert_guild(CachedGuild {
        id: GUILD,
        name: "guild".to_string(),
        icon: None,
        owner_id: 42,
        unavailable: false,
        channels: vec![10, 11, 12],
        roles: vec![],
        current_member: None,
    });
    cache.upsert_channel(text_channel(10, "general"));
    cache.upsert_channel(text_channel(12, DEFAULT_LOGS_NAME));
    // Id 11 has no store entry and is skipped.
    let channels = cache.guild_channels(GUILD).expect("guild cached");
    let ids: Vec<u64> = channels.iter().map(|c| c.id()).collect();
    assert_eq!(ids, vec![10, 12]);
    assert!(cache.guild_channels(2).is_none());
}

#[test]
fn mirror_keys_follow_the_scheme() {
    assert_eq!(CachedChannel::key_from(&42), "c:channel:42");
    assert_eq!(CachedGuild::key_from(&0), "c:guild:0");
    assert_eq!(CachedRole::key_from(&18446744073709551615), "c:role:18446744073709551615");
    assert_eq!(text_channel(1050, "x").key(), "c:channel:1050");
}

#[test]
fn snowflake_timestamps_match_the_epoch() {
    assert_eq!(snowflake_timestamp(175928847299117063), 1462015105796);
    assert_eq!(snowflake_timestamp_secs(175928847299117063), 1462015105);
    // The smallest snowflake maps to the platform epoch itself.
    assert_eq!(snowflake_timestamp(0), 1420070400000);
}

#[test]
fn kick_decision_checks_in_order() {
    let kick = PERMISSION_KICK_MEMBERS;
    assert_eq!(kick_decision(false, false, kick, 0, 5, 5, true), KickDecision::NotMember);
    assert_eq!(kick_decision(true, true, kick, 0, 5, 5, true), KickDecision::MemberOwner);
    assert_eq!(kick_decision(true, false, 0, 0, 5, 5, true), KickDecision::BotMissingPermission);
    // An equal position is never privileged.
    assert_eq!(kick_decision(true, false, kick, 5, 5, 9, true), KickDecision::UserHierarchy);
    assert_eq!(kick_decision(true, false, kick, 5, 9, 5, true), KickDecision::BotHierarchy);
    assert_eq!(kick_decision(true, false, kick, 1, 5, 9, true), KickDecision::Kick);
    assert_eq!(kick_decision(true, false, kick, 1, 5, 9, false), KickDecision::AskReason);
}
