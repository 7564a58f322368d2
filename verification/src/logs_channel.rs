//! Logs-channel lookup and single-flight creation coordination.
//!
//! Every guild has at most one moderation-logs channel. When it is missing,
//! it must be created remotely, and concurrent callers must not each issue a
//! creation call: the coordinator tracks, per guild id, whether a creation is
//! already in flight. The first caller acquires the key and performs the
//! creation; every concurrent caller observes the key as pending and waits
//! for the shared result instead. Once the result is broadcast, the key's
//! entry is released so that a later failure can be retried from scratch.
//!
//! Before creating, the flow first reuses a channel that already carries the
//! conventional logs-channel name, to tolerate the channel pre-existing
//! outside the bot's own bookkeeping.

use vstd::prelude::*;

use vstd::string::StringExecFns;

use crate::cache::{CacheView, InMemoryCache};
use crate::event::{contains_id, remove_id, spec_remove_id};
use crate::model::{
    CachedChannel, ChannelType, ChannelView, PermissionOverwrite, PermissionOverwriteType,
};
use crate::permission::PERMISSION_VIEW_CHANNEL;

verus! {

/// Conventional name of a guild's moderation-logs channel.
pub const DEFAULT_LOGS_NAME: &'static str = "raidprotect-logs";

/// Whether a channel is a text channel carrying the conventional logs name.
pub open spec fn spec_is_logs_channel(c: ChannelView) -> bool {
    c matches ChannelView::Text(t) && t.name == "raidprotect-logs"@
}

/// The id of the first channel in the list that carries the conventional
/// logs name.
pub open spec fn spec_find_logs_channel(cs: Seq<ChannelView>) -> Option<u64>
    decreases cs.len(),
{
    if cs.len() == 0 {
        None
    } else if spec_is_logs_channel(cs.first()) {
        Some(cs.first().id())
    } else {
        spec_find_logs_channel(cs.drop_first())
    }
}

/// Skipping a prefix without a logs channel does not change the result.
proof fn lemma_find_logs_skip(cs: Seq<ChannelView>, i: int)
    requires
        0 <= i <= cs.len(),
        forall|j: int| 0 <= j < i ==> !spec_is_logs_channel(cs[j]),
    ensures
        spec_find_logs_channel(cs) == spec_find_logs_channel(cs.skip(i)),
    decreases i,
{
    if i == 0 {
        assert(cs.skip(0) =~= cs);
    } else {
        lemma_find_logs_skip(cs, i - 1);
        assert(cs.skip(i - 1).first() == cs[i - 1]);
        assert(cs.skip(i - 1).drop_first() =~= cs.skip(i));
    }
}

/// Find the first channel in the list that carries the conventional logs
/// name.
pub fn find_logs_channel(channels: &Vec<CachedChannel>) -> (r: Option<u64>)
    ensures
        r == spec_find_logs_channel(channels@.map_values(|c: CachedChannel| c@)),
{
    let ghost views = channels@.map_values(|c: CachedChannel| c@);
    let target: String = DEFAULT_LOGS_NAME.to_owned();
    let mut i: usize = 0;
    while i < channels.len()
        invariant
            i <= channels.len(),
            target@ == "raidprotect-logs"@,
            views == channels@.map_values(|c: CachedChannel| c@),
            forall|j: int| 0 <= j < i ==> !spec_is_logs_channel(views[j]),
        decreases channels.len() - i,
    {
        match &channels[i] {
            CachedChannel::Text(t) => {
                if t.name.eq(&target) {
                    proof {
                        lemma_find_logs_skip(views, i as int);
                        assert(views.skip(i as int).first() == views[i as int]);
                    }
                    return Some(t.id);
                }
            },
            _ => {
            },
        }
        i = i + 1;
    }
    proof {
        lemma_find_logs_skip(views, views.len() as int);
        assert(views.skip(views.len() as int) =~= Seq::<ChannelView>::empty());
    }
    None
}

/// Every occurrence test survives a removal of a different id.
proof fn lemma_remove_id_contains(s: Seq<u64>, x: u64, e: u64)
    ensures
        spec_remove_id(s, x).contains(e) <==> (s.contains(e) && e != x),
    decreases s.len(),
{
    if s.len() > 0 {
        lemma_remove_id_contains(s.drop_last(), x, e);
        let rest = spec_remove_id(s.drop_last(), x);
        if s.last() != x {
            assert(spec_remove_id(s, x) == rest.push(s.last()));
            assert(rest.push(s.last()).contains(e) <==> (rest.contains(e) || e == s.last())) by {
                if rest.contains(e) {
                    let j = choose|j: int| 0 <= j < rest.len() && rest[j] == e;
                    assert(rest.push(s.last())[j] == e);
                }
                if e == s.last() {
                    assert(rest.push(s.last())[rest.len() as int] == e);
                }
                if rest.push(s.last()).contains(e) {
                    let j = choose|j: int|
                        0 <= j < rest.push(s.last()).len() && rest.push(s.last())[j] == e;
                    if j < rest.len() {
                        assert(rest[j] == e);
                    }
                }
            }
        }
        if s.contains(e) && e != x {
            let j = choose|j: int| 0 <= j < s.len() && s[j] == e;
            if j < s.len() - 1 {
                assert(s.drop_last()[j] == e);
            }
        }
        if s.drop_last().contains(e) {
            let j = choose|j: int| 0 <= j < s.drop_last().len() && s.drop_last()[j] == e;
            assert(s[j] == e);
        }
    }
}

/// Coordinator of in-flight logs-channel creations, keyed by guild id.
///
/// Its model is the set of guild ids for which a creation is currently in
/// flight.
#[derive(Debug)]
pub struct PendingChannels {
    keys: Vec<u64>,
}

impl View for PendingChannels {
    type V = Set<u64>;

    closed spec fn view(&self) -> Set<u64> {
        self.keys@.to_set()
    }
}

impl PendingChannels {
    /// A coordinator with no creation in flight.
    pub fn new() -> (r: Self)
        ensures
            r@ == Set::<u64>::empty(),
    {
        let r = PendingChannels { keys: Vec::new() };
        proof {
            assert(r@ =~= Set::<u64>::empty());
        }
        r
    }

    /// Whether a creation is in flight for the guild.
    pub fn is_pending(&self, guild_id: u64) -> (r: bool)
        ensures
            r == self@.contains(guild_id),
    {
        contains_id(&self.keys, guild_id)
    }

    /// Try to claim the creation for a guild. The claim succeeds exactly
    /// when no creation is in flight for that guild; afterwards one is.
    pub fn acquire(&mut self, guild_id: u64) -> (r: bool)
        ensures
            r == !old(self)@.contains(guild_id),
            final(self)@ == old(self)@.insert(guild_id),
    {
        if contains_id(&self.keys, guild_id) {
            proof {
                assert(old(self)@.insert(guild_id) =~= old(self)@);
            }
            false
        } else {
            let ghost pre = self.keys@;
            self.keys.push(guild_id);
            proof {
                crate::cache::lemma_to_set_push(pre, guild_id);
            }
            true
        }
    }

    /// Release the claim for a guild once the result has been broadcast to
    /// every waiter, so that a later attempt can retry from scratch.
    pub fn release(&mut self, guild_id: u64)
        ensures
            final(self)@ == old(self)@.remove(guild_id),
    {
        let ghost pre = self.keys@;
        remove_id(&mut self.keys, guild_id);
        proof {
            assert forall|e: u64| self@.contains(e) implies old(self)@.remove(guild_id).contains(
                e,
            ) by {
                lemma_remove_id_contains(pre, guild_id, e);
            }
            assert forall|e: u64| old(self)@.remove(guild_id).contains(e) implies self@.contains(
                e,
            ) by {
                lemma_remove_id_contains(pre, guild_id, e);
            }
            assert(self@ =~= old(self)@.remove(guild_id));
        }
    }
}

/// Single-flight uniqueness: once a caller has claimed the creation for a
/// key, the key is pending, so every further claim before the release fails
/// and that caller waits for the shared result instead of creating a second
/// resource; and releasing a freshly-claimed key restores the original
/// state, so a failed attempt can be retried from scratch.
pub proof fn lemma_single_flight_uniqueness(s: Set<u64>, key: u64)
    ensures
        s.insert(key).contains(key),
        s.insert(key).insert(key) == s.insert(key),
        !s.contains(key) ==> s.insert(key).remove(key) == s,
{
    assert(s.insert(key).insert(key) =~= s.insert(key));
    if !s.contains(key) {
        assert(s.insert(key).remove(key) =~= s);
    }
}

/// What a caller that needs the guild's logs channel should do next.
#[derive(Clone, Copy, Debug, PartialEq, Eq, Structural)]
pub enum LogsChannelAction {
    /// The configured channel still exists: use it.
    Existing(u64),
    /// Another caller is already creating the channel: wait for its result.
    Wait,
    /// No creation is in flight: claim the key and create the channel.
    Create,
}

/// The next step for a caller that needs a guild's logs channel, given the
/// configured channel id, if any.
pub open spec fn spec_guild_logs_channel_action(
    c: CacheView,
    pending: Set<u64>,
    guild_id: u64,
    logs_chan: Option<u64>,
) -> LogsChannelAction {
    if logs_chan matches Some(id) && c.channels.contains_key(id) {
        LogsChannelAction::Existing(logs_chan->Some_0)
    } else if pending.contains(guild_id) {
        LogsChannelAction::Wait
    } else {
        LogsChannelAction::Create
    }
}

/// Decide the next step for a caller that needs a guild's logs channel: use
/// the configured channel when it is still cached, wait when a creation is
/// already in flight for the guild, and create otherwise.
pub fn guild_logs_channel_action(
    cache: &InMemoryCache,
    pending: &PendingChannels,
    guild_id: u64,
    logs_chan: Option<u64>,
) -> (r: LogsChannelAction)
    ensures
        r == spec_guild_logs_channel_action(cache@, pending@, guild_id, logs_chan),
{
    if let Some(id) = logs_chan {
        if cache.get_channel(id).is_some() {
            return LogsChannelAction::Existing(id);
        }
    }
    if pending.is_pending(guild_id) {
        LogsChannelAction::Wait
    } else {
        LogsChannelAction::Create
    }
}

/// Ready-to-send descriptor of the creation of a logs channel: a text
/// channel with the conventional name, hidden from the `@everyone` role.
#[derive(Debug, PartialEq, Eq)]
pub struct CreateLogsChannel {
    /// Guild the channel is created in.
    pub guild_id: u64,
    /// Name of the new channel.
    pub name: String,
    /// Kind of the new channel.
    pub kind: ChannelType,
    /// Permission overwrites of the new channel.
    pub permission_overwrites: Vec<PermissionOverwrite>,
}

/// The plan of a claimed creation: reuse a cached channel that already
/// carries the conventional name, or create a new one.
#[derive(Debug, PartialEq, Eq)]
pub enum CreateLogsChannelPlan {
    /// A channel with the conventional name already exists: reuse it.
    Reuse(u64),
    /// Create a new logs channel from this descriptor.
    CreateNew(CreateLogsChannel),
}

/// Plan the creation of a guild's logs channel from the guild's cached
/// channel list: reuse the first channel carrying the conventional name, or
/// describe a new text channel with that name whose `@everyone` overwrite
/// denies viewing it.
pub fn create_logs_channel_plan(guild_id: u64, channels: &Vec<CachedChannel>) -> (r:
    CreateLogsChannelPlan)
    ensures
        match spec_find_logs_channel(channels@.map_values(|c: CachedChannel| c@)) {
            Some(id) => r matches CreateLogsChannelPlan::Reuse(rid) && rid == id,
            None => r matches CreateLogsChannelPlan::CreateNew(req) && req.guild_id == guild_id
                && req.name@ == "raidprotect-logs"@ && req.kind == ChannelType::GuildText
                && req.permission_overwrites@ == seq![
                PermissionOverwrite {
                    id: guild_id,
                    kind: PermissionOverwriteType::Role,
                    allow: 0u64,
                    deny: PERMISSION_VIEW_CHANNEL,
                },
            ],
        },
{
    match find_logs_channel(channels) {
        Some(id) => CreateLogsChannelPlan::Reuse(id),
        None => {
            let overwrite = PermissionOverwrite {
                id: guild_id,
                kind: PermissionOverwriteType::Role,
                allow: 0,
                deny: PERMISSION_VIEW_CHANNEL,
            };
            let mut overwrites: Vec<PermissionOverwrite> = Vec::new();
            overwrites.push(overwrite);
            proof {
                assert(overwrites@ =~= seq![overwrite]);
            }
            CreateLogsChannelPlan::CreateNew(
                CreateLogsChannel {
                    guild_id,
                    name: DEFAULT_LOGS_NAME.to_owned(),
                    kind: ChannelType::GuildText,
                    permission_overwrites: overwrites,
                },
            )
        },
    }
}

} // verus!
