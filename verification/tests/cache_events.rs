//! Tests of the entity cache and the event projector.

use raidprotect::cache::InMemoryCache;
use raidprotect::event::{
    ChannelCreate, ChannelDelete, ChannelPayload, ChannelUpdate, GuildCreate, GuildDelete,
    GuildPayload, GuildUpdate, IncomingChannel, MemberAdd, MemberUpdate, RoleCreate, RoleDelete,
    RolePayload, RoleUpdate, ThreadCreate, ThreadDelete, UnavailableGuild, UpdateCache,
};
use raidprotect::model::{CachedChannel, ChannelType};

const BOT_ID: u64 = 999;

fn text_payload(id: u64, guild_id: u64, name: &str) -> ChannelPayload {
    ChannelPayload {
        id,
        guild_id: Some(guild_id),
        kind: ChannelType::GuildText,
        name: name.to_string(),
        parent_id: None,
        position: 0,
        permission_overwrites: Vec::new(),
        rate_limit_per_user: None,
    }
}

fn role_payload(id: u64, permissions: u64, position: i64) -> RolePayload {
    RolePayload {
        id,
        permissions,
        position,
        color: 0,
        mentionable: false,
    }
}

fn guild_payload(id: u64, owner_id: u64, channels: Vec<ChannelPayload>, roles: Vec<RolePayload>) -> GuildPayload {
    GuildPayload {
        id,
        name: format!("guild-{id}"),
        icon: None,
        owner_id,
        unavailable: false,
        channels,
        roles,
    }
}

#[test]
fn guild_create_scenario() {
    let mut cache = InMemoryCache::new(BOT_ID);
    let event = GuildCreate(guild_payload(
        1,
        42,
        vec![text_payload(10, 1, "general"), text_payload(11, 1, "logs")],
        vec![role_payload(20, 0, 1)],
    ));
    event.update(&mut cache);

    let guild = cache.get_guild(1).expect("guild cached");
    assert_eq!(guild.channels.len(), 2);
    assert_eq!(guild.roles.len(), 1);
    assert!(!guild.unavailable);
    assert_eq!(guild.owner_id, 42);
    assert!(cache.get_channel(10).is_some());
    assert!(cache.get_channel(11).is_some());
    assert!(cache.get_role(20).is_some());

    // A subsequent channel delete shrinks the membership set and the store.
    let delete = ChannelDelete(IncomingChannel::Guild(text_payload(10, 1, "general")));
    let removed = delete.update(&mut cache);
    assert!(removed.is_some());
    assert_eq!(removed.unwrap().id(), 10);
    let guild = cache.get_guild(1).expect("guild cached");
    assert_eq!(guild.channels.len(), 1);
    assert!(cache.get_channel(10).is_none());
    assert!(cache.get_channel(11).is_some());
}

#[test]
fn guild_delete_cascades_exactly() {
    let mut cache = InMemoryCache::new(BOT_ID);
    GuildCreate(guild_payload(
        1,
        42,
        vec![text_payload(10, 1, "a"), text_payload(11, 1, "b")],
        vec![role_payload(20, 0, 1)],
    ))
    .update(&mut cache);
    GuildCreate(guild_payload(
        2,
        43,
        vec![text_payload(30, 2, "c")],
        vec![role_payload(40, 0, 1)],
    ))
    .update(&mut cache);

    let removed = GuildDelete { id: 1 }.update(&mut cache);
    assert_eq!(removed.unwrap().id, 1);

    // Exactly guild 1's entities are gone; guild 2's are untouched.
    assert!(cache.get_guild(1).is_none());
    assert!(cache.get_channel(10).is_none());
    assert!(cache.get_channel(11).is_none());
    assert!(cache.get_role(20).is_none());
    assert!(cache.get_guild(2).is_some());
    assert!(cache.get_channel(30).is_some());
    assert!(cache.get_role(40).is_some());

    // Deleting again is a no-op and returns nothing.
    assert!(GuildDelete { id: 1 }.update(&mut cache).is_none());
}

#[test]
fn guild_unavailable_keeps_record_and_cascades() {
    let mut cache = InMemoryCache::new(BOT_ID);
    GuildCreate(guild_payload(
        1,
        42,
        vec![text_payload(10, 1, "a")],
        vec![role_payload(20, 0, 1)],
    ))
    .update(&mut cache);

    UnavailableGuild { id: 1 }.update(&mut cache);

    let guild = cache.get_guild(1).expect("record kept");
    assert!(guild.unavailable);
    assert!(guild.channels.is_empty());
    assert!(guild.roles.is_empty());
    assert!(cache.get_channel(10).is_none());
    assert!(cache.get_role(20).is_none());
}

#[test]
fn guild_update_patches_and_returns_previous() {
    let mut cache = InMemoryCache::new(BOT_ID);
    GuildCreate(guild_payload(1, 42, vec![], vec![])).update(&mut cache);

    let update = GuildUpdate {
        id: 1,
        name: "renamed".to_string(),
        icon: Some("hash".to_string()),
        owner_id: 77,
    };
    let before = update.update(&mut cache).expect("previous snapshot");
    assert_eq!(before.name, "guild-1");
    assert_eq!(before.owner_id, 42);

    let guild = cache.get_guild(1).unwrap();
    assert_eq!(guild.name, "renamed");
    assert_eq!(guild.icon.as_deref(), Some("hash"));
    assert_eq!(guild.owner_id, 77);

    // Applying the same update twice: the second previous value is the state
    // after the first application, and the cache does not change further.
    let before2 = update.update(&mut cache).expect("previous snapshot");
    assert_eq!(before2.name, "renamed");
    assert_eq!(before2.owner_id, 77);
    let guild = cache.get_guild(1).unwrap();
    assert_eq!(guild.name, "renamed");

    // Updating an unknown guild is a no-op.
    let miss = GuildUpdate {
        id: 9,
        name: "x".to_string(),
        icon: None,
        owner_id: 1,
    };
    assert!(miss.update(&mut cache).is_none());
}

#[test]
fn channel_update_is_idempotent_and_returns_new_value() {
    let mut cache = InMemoryCache::new(BOT_ID);
    GuildCreate(guild_payload(1, 42, vec![text_payload(10, 1, "old")], vec![])).update(&mut cache);

    let update = ChannelUpdate(IncomingChannel::Guild(text_payload(10, 1, "new")));
    let first = update.update(&mut cache).expect("new-current channel");
    match &first {
        CachedChannel::Text(t) => assert_eq!(t.name, "new"),
        other => panic!("unexpected channel: {other:?}"),
    }
    let second = update.update(&mut cache).expect("new-current channel");
    assert_eq!(first, second);
    match cache.get_channel(10).unwrap() {
        CachedChannel::Text(t) => assert_eq!(t.name, "new"),
        other => panic!("unexpected channel: {other:?}"),
    }
}

#[test]
fn private_channels_are_ignored() {
    let mut cache = InMemoryCache::new(BOT_ID);
    ChannelCreate(IncomingChannel::Private).update(&mut cache);
    assert!(ChannelDelete(IncomingChannel::Private).update(&mut cache).is_none());
    assert!(ChannelUpdate(IncomingChannel::Private).update(&mut cache).is_none());
}

#[test]
fn channel_create_for_unknown_guild_still_fills_store() {
    let mut cache = InMemoryCache::new(BOT_ID);
    ChannelCreate(IncomingChannel::Guild(text_payload(10, 5, "orphan"))).update(&mut cache);
    // The membership-set side is a no-op, but the store state is well
    // defined: the entity is cached without an owning guild.
    assert!(cache.get_guild(5).is_none());
    assert!(cache.get_channel(10).is_some());
}

#[test]
fn thread_events_roundtrip() {
    let mut cache = InMemoryCache::new(BOT_ID);
    GuildCreate(guild_payload(1, 42, vec![text_payload(10, 1, "parent")], vec![])).update(&mut cache);

    let thread = ChannelPayload {
        id: 50,
        guild_id: Some(1),
        kind: ChannelType::GuildPrivateThread,
        name: "thread".to_string(),
        parent_id: Some(10),
        position: 0,
        permission_overwrites: Vec::new(),
        rate_limit_per_user: None,
    };
    ThreadCreate(IncomingChannel::Guild(thread)).update(&mut cache);
    assert_eq!(cache.get_guild(1).unwrap().channels.len(), 2);
    // The generic thread tag is reported even for a private thread.
    assert_eq!(cache.get_channel(50).unwrap().kind(), ChannelType::GuildPublicThread);

    let removed = ThreadDelete { id: 50, guild_id: 1 }.update(&mut cache);
    assert_eq!(removed.unwrap().id(), 50);
    assert_eq!(cache.get_guild(1).unwrap().channels.len(), 1);
    assert!(cache.get_channel(50).is_none());
}

#[test]
fn thread_without_parent_is_not_cached() {
    let mut cache = InMemoryCache::new(BOT_ID);
    GuildCreate(guild_payload(1, 42, vec![], vec![])).update(&mut cache);
    let thread = ChannelPayload {
        id: 50,
        guild_id: Some(1),
        kind: ChannelType::GuildPublicThread,
        name: "dangling".to_string(),
        parent_id: None,
        position: 0,
        permission_overwrites: Vec::new(),
        rate_limit_per_user: None,
    };
    ThreadCreate(IncomingChannel::Guild(thread)).update(&mut cache);
    assert!(cache.get_channel(50).is_none());
    assert!(cache.get_guild(1).unwrap().channels.is_empty());
}

#[test]
fn role_events_roundtrip() {
    let mut cache = InMemoryCache::new(BOT_ID);
    GuildCreate(guild_payload(1, 42, vec![], vec![])).update(&mut cache);

    RoleCreate { guild_id: 1, role: role_payload(20, 0x2, 3) }.update(&mut cache);
    assert!(cache.get_role(20).is_some());
    assert_eq!(cache.get_guild(1).unwrap().roles, vec![20]);

    let updated = RoleUpdate { guild_id: 1, role: role_payload(20, 0x8, 4) }
        .update(&mut cache)
        .expect("new-current role");
    assert_eq!(updated.permissions, 0x8);
    assert_eq!(cache.get_role(20).unwrap().position, 4);

    let removed = RoleDelete { guild_id: 1, role_id: 20 }.update(&mut cache);
    assert_eq!(removed.unwrap().id, 20);
    assert!(cache.get_role(20).is_none());
    assert!(cache.get_guild(1).unwrap().roles.is_empty());

    // Deleting again returns nothing.
    assert!(RoleDelete { guild_id: 1, role_id: 20 }.update(&mut cache).is_none());
}

#[test]
fn member_events_only_track_the_bot() {
    let mut cache = InMemoryCache::new(BOT_ID);
    GuildCreate(guild_payload(1, 42, vec![], vec![role_payload(20, 0, 1)])).update(&mut cache);

    // An event about another user is ignored.
    MemberAdd { guild_id: 1, user_id: 123, communication_disabled_until: None }.update(&mut cache);
    assert!(cache.get_current_member(1).is_none());

    // The bot's own membership is computed from the guild's role set.
    MemberAdd { guild_id: 1, user_id: BOT_ID, communication_disabled_until: None }
        .update(&mut cache);
    let member = cache.get_current_member(1).expect("bot membership cached");
    assert_eq!(member.id, BOT_ID);
    assert_eq!(member.roles, vec![20]);

    // An update returns the previous value and stores the new one.
    let previous = MemberUpdate {
        guild_id: 1,
        user_id: BOT_ID,
        communication_disabled_until: Some(5000),
    }
    .update(&mut cache)
    .expect("previous membership");
    assert_eq!(previous.communication_disabled_until, None);
    let member = cache.get_current_member(1).unwrap();
    assert_eq!(member.communication_disabled_until, Some(5000));

    // An update about another user returns nothing and changes nothing.
    assert!(MemberUpdate { guild_id: 1, user_id: 1, communication_disabled_until: None }
        .update(&mut cache)
        .is_none());
    assert_eq!(cache.get_current_member(1).unwrap().communication_disabled_until, Some(5000));
}

#[test]
fn guild_create_is_idempotent() {
    let mut cache = InMemoryCache::new(BOT_ID);
    let event = GuildCreate(guild_payload(
        1,
        42,
        vec![text_payload(10, 1, "a")],
        vec![role_payload(20, 0, 1)],
    ));
    event.update(&mut cache);
    event.update(&mut cache);
    let guild = cache.get_guild(1).unwrap();
    assert_eq!(guild.channels, vec![10]);
    assert_eq!(guild.roles, vec![20]);
}
