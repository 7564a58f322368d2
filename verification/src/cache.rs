//! Entity cache.
//!
//! A store of guilds, channels and roles sharded by entity kind, kept
//! consistent with the event stream by the projector in [`crate::event`].
//! All operations are total: removing or updating an id that is not cached is
//! a no-op, never an error, so that stream replays and out-of-order delivery
//! degrade gracefully.
//!
//! Removing a guild (or marking it unavailable) cascades: every channel and
//! role id the guild references is purged from the respective stores.

use std::collections::HashMap;

use vstd::prelude::*;

use crate::model::{
    CachedChannel, CachedGuild, CachedRole, ChannelView, CurrentMember, GuildView,
    RoleView,
};

verus! {

broadcast use vstd::std_specs::hash::group_hash_axioms;

/// Mathematical model of the whole cache: one map per entity kind.
#[verifier::ext_equal]
pub struct CacheView {
    /// Id of the bot's own user.
    pub current_user: u64,
    /// Guild store.
    pub guilds: Map<u64, GuildView>,
    /// Channel store.
    pub channels: Map<u64, ChannelView>,
    /// Role store.
    pub roles: Map<u64, RoleView>,
}

/// In-process entity cache, the single source of truth for local reads.
#[derive(Debug)]
pub struct InMemoryCache {
    /// Id of the bot's own user, fixed at construction.
    pub current_user: u64,
    /// Guild store.
    pub guilds: HashMap<u64, CachedGuild>,
    /// Channel store.
    pub channels: HashMap<u64, CachedChannel>,
    /// Role store.
    pub roles: HashMap<u64, CachedRole>,
}

impl View for InMemoryCache {
    type V = CacheView;

    open spec fn view(&self) -> CacheView {
        CacheView {
            current_user: self.current_user,
            guilds: self.guilds@.map_values(|g: CachedGuild| g@),
            channels: self.channels@.map_values(|c: CachedChannel| c@),
            roles: self.roles@.map_values(|r: CachedRole| r@),
        }
    }
}

/// Mapping the values of a map commutes with inserting one entry.
proof fn lemma_map_values_insert<K, A, B>(m: Map<K, A>, f: spec_fn(A) -> B, k: K, v: A)
    ensures
        m.insert(k, v).map_values(f) =~= m.map_values(f).insert(k, f(v)),
{
}

/// Mapping the values of a map commutes with removing one key.
proof fn lemma_map_values_remove<K, A, B>(m: Map<K, A>, f: spec_fn(A) -> B, k: K)
    ensures
        m.remove(k).map_values(f) =~= m.map_values(f).remove(k),
{
}

impl InMemoryCache {
    /// Create an empty cache for the given bot user.
    pub fn new(current_user: u64) -> (r: Self)
        ensures
            r@.current_user == current_user,
            r@.guilds == Map::<u64, GuildView>::empty(),
            r@.channels == Map::<u64, ChannelView>::empty(),
            r@.roles == Map::<u64, RoleView>::empty(),
    {
        let r = InMemoryCache {
            current_user,
            guilds: HashMap::new(),
            channels: HashMap::new(),
            roles: HashMap::new(),
        };
        proof {
            assert(r@.guilds =~= Map::<u64, GuildView>::empty());
            assert(r@.channels =~= Map::<u64, ChannelView>::empty());
            assert(r@.roles =~= Map::<u64, RoleView>::empty());
        }
        r
    }

    /// Id of the bot's own user.
    pub fn current_user(&self) -> (r: u64)
        ensures
            r == self@.current_user,
    {
        self.current_user
    }

    /// Read a guild by id.
    pub fn get_guild(&self, id: u64) -> (r: Option<&CachedGuild>)
        ensures
            match r {
                Some(g) => self@.guilds.contains_key(id) && g@ == self@.guilds[id],
                None => !self@.guilds.contains_key(id),
            },
    {
        self.guilds.get(&id)
    }

    /// Read a channel by id.
    pub fn get_channel(&self, id: u64) -> (r: Option<&CachedChannel>)
        ensures
            match r {
                Some(c) => self@.channels.contains_key(id) && c@ == self@.channels[id],
                None => !self@.channels.contains_key(id),
            },
    {
        self.channels.get(&id)
    }

    /// Read a role by id.
    pub fn get_role(&self, id: u64) -> (r: Option<&CachedRole>)
        ensures
            match r {
                Some(ro) => self@.roles.contains_key(id) && ro@ == self@.roles[id],
                None => !self@.roles.contains_key(id),
            },
    {
        self.roles.get(&id)
    }

    /// Insert or overwrite a guild.
    pub fn upsert_guild(&mut self, guild: CachedGuild)
        ensures
            final(self)@.current_user == old(self)@.current_user,
            final(self)@.guilds == old(self)@.guilds.insert(guild.id, guild@),
            final(self)@.channels == old(self)@.channels,
            final(self)@.roles == old(self)@.roles,
    {
        let ghost m = self.guilds@;
        let ghost gexec = guild;
        let ghost id = guild.id;
        self.guilds.insert(guild.id, guild);
        proof {
            lemma_map_values_insert(m, |g: CachedGuild| g@, id, gexec);
            assert(self@.guilds =~= old(self)@.guilds.insert(id, gexec@));
        }
    }

    /// Insert or overwrite a channel.
    pub fn upsert_channel(&mut self, channel: CachedChannel)
        ensures
            final(self)@.current_user == old(self)@.current_user,
            final(self)@.guilds == old(self)@.guilds,
            final(self)@.channels == old(self)@.channels.insert(channel@.id(), channel@),
            final(self)@.roles == old(self)@.roles,
    {
        let ghost m = self.channels@;
        let ghost cexec = channel;
        let id = channel.id();
        self.channels.insert(id, channel);
        proof {
            lemma_map_values_insert(m, |c: CachedChannel| c@, cexec@.id(), cexec);
            assert(self@.channels =~= old(self)@.channels.insert(cexec@.id(), cexec@));
        }
    }

    /// Insert or overwrite a role.
    pub fn upsert_role(&mut self, role: CachedRole)
        ensures
            final(self)@.current_user == old(self)@.current_user,
            final(self)@.guilds == old(self)@.guilds,
            final(self)@.channels == old(self)@.channels,
            final(self)@.roles == old(self)@.roles.insert(role.id, role@),
    {
        let ghost m = self.roles@;
        let ghost rexec = role;
        let ghost id = role.id;
        self.roles.insert(role.id, role);
        proof {
            lemma_map_values_insert(m, |r: CachedRole| r@, id, rexec);
            assert(self@.roles =~= old(self)@.roles.insert(id, rexec@));
        }
    }

    /// Remove a channel by id. A no-op when the id is not cached.
    pub fn remove_channel(&mut self, id: u64) -> (r: Option<CachedChannel>)
        ensures
            final(self)@.current_user == old(self)@.current_user,
            final(self)@.guilds == old(self)@.guilds,
            final(self)@.channels == old(self)@.channels.remove(id),
            final(self)@.roles == old(self)@.roles,
            match r {
                Some(c) => old(self)@.channels.contains_key(id) && c@ == old(self)@.channels[id],
                None => !old(self)@.channels.contains_key(id),
            },
    {
        let ghost m = self.channels@;
        let r = self.channels.remove(&id);
        proof {
            lemma_map_values_remove(m, |c: CachedChannel| c@, id);
            assert(self@.channels =~= old(self)@.channels.remove(id));
        }
        r
    }

    /// Remove a role by id. A no-op when the id is not cached.
    pub fn remove_role(&mut self, id: u64) -> (r: Option<CachedRole>)
        ensures
            final(self)@.current_user == old(self)@.current_user,
            final(self)@.guilds == old(self)@.guilds,
            final(self)@.channels == old(self)@.channels,
            final(self)@.roles == old(self)@.roles.remove(id),
            match r {
                Some(ro) => old(self)@.roles.contains_key(id) && ro@ == old(self)@.roles[id],
                None => !old(self)@.roles.contains_key(id),
            },
    {
        let ghost m = self.roles@;
        let r = self.roles.remove(&id);
        proof {
            lemma_map_values_remove(m, |ro: CachedRole| ro@, id);
            assert(self@.roles =~= old(self)@.roles.remove(id));
        }
        r
    }

    /// Purge the listed channel and role ids from their stores.
    ///
    /// This is the cascade step shared by guild removal and guild
    /// unavailability.
    pub(crate) fn remove_entities(&mut self, channel_ids: &Vec<u64>, role_ids: &Vec<u64>)
        ensures
            final(self)@.current_user == old(self)@.current_user,
            final(self)@.guilds == old(self)@.guilds,
            final(self)@.channels == old(self)@.channels.remove_keys(channel_ids@.to_set()),
            final(self)@.roles == old(self)@.roles.remove_keys(role_ids@.to_set()),
    {
        let mut i: usize = 0;
        while i < channel_ids.len()
            invariant
                i <= channel_ids.len(),
                self@.current_user == old(self)@.current_user,
                self@.guilds == old(self)@.guilds,
                self@.channels == old(self)@.channels.remove_keys(
                    channel_ids@.take(i as int).to_set(),
                ),
                self@.roles == old(self)@.roles,
            decreases channel_ids.len() - i,
        {
            let ghost before = self@.channels;
            self.remove_channel(channel_ids[i]);
            proof {
                assert(channel_ids@.take(i + 1 as int) =~= channel_ids@.take(i as int).push(
                    channel_ids@[i as int],
                ));
                lemma_to_set_push(channel_ids@.take(i as int), channel_ids@[i as int]);
                assert(before.remove(channel_ids@[i as int]) =~= old(self)@.channels.remove_keys(
                    channel_ids@.take(i + 1 as int).to_set(),
                ));
            }
            i = i + 1;
        }
        proof {
            assert(channel_ids@.take(channel_ids@.len() as int) =~= channel_ids@);
        }
        let mut j: usize = 0;
        while j < role_ids.len()
            invariant
                j <= role_ids.len(),
                self@.current_user == old(self)@.current_user,
                self@.guilds == old(self)@.guilds,
                self@.channels == old(self)@.channels.remove_keys(channel_ids@.to_set()),
                self@.roles == old(self)@.roles.remove_keys(role_ids@.take(j as int).to_set()),
            decreases role_ids.len() - j,
        {
            let ghost before = self@.roles;
            self.remove_role(role_ids[j]);
            proof {
                assert(role_ids@.take(j + 1 as int) =~= role_ids@.take(j as int).push(
                    role_ids@[j as int],
                ));
                lemma_to_set_push(role_ids@.take(j as int), role_ids@[j as int]);
                assert(before.remove(role_ids@[j as int]) =~= old(self)@.roles.remove_keys(
                    role_ids@.take(j + 1 as int).to_set(),
                ));
            }
            j = j + 1;
        }
        proof {
            assert(role_ids@.take(role_ids@.len() as int) =~= role_ids@);
        }
    }

    /// Remove a guild by id, cascading to its channels and roles.
    ///
    /// Exactly the channel and role ids referenced by the guild's membership
    /// sets are purged from the stores; entities of other guilds are
    /// untouched. A no-op when the guild is not cached.
    pub fn remove_guild(&mut self, id: u64) -> (r: Option<CachedGuild>)
        ensures
            final(self)@.current_user == old(self)@.current_user,
            old(self)@.guilds.contains_key(id) ==> {
                &&& final(self)@.guilds == old(self)@.guilds.remove(id)
                &&& final(self)@.channels == old(self)@.channels.remove_keys(
                    old(self)@.guilds[id].channels.to_set(),
                )
                &&& final(self)@.roles == old(self)@.roles.remove_keys(
                    old(self)@.guilds[id].roles.to_set(),
                )
            },
            !old(self)@.guilds.contains_key(id) ==> final(self)@ == old(self)@,
            match r {
                Some(g) => old(self)@.guilds.contains_key(id) && g@ == old(self)@.guilds[id],
                None => !old(self)@.guilds.contains_key(id),
            },
    {
        let ghost m = self.guilds@;
        let removed = self.guilds.remove(&id);
        proof {
            lemma_map_values_remove(m, |g: CachedGuild| g@, id);
            assert(self@.guilds =~= old(self)@.guilds.remove(id));
        }
        match removed {
            Some(guild) => {
                self.remove_entities(&guild.channels, &guild.roles);
                Some(guild)
            },
            None => {
                proof {
                    assert(self@ =~= old(self)@);
                }
                None
            },
        }
    }

    /// Mark a guild unavailable, cascading to its channels and roles.
    ///
    /// The guild record itself is kept (so that it can be restored later) but
    /// its membership sets are cleared and the referenced entities are purged.
    /// A no-op when the guild is not cached.
    pub fn set_guild_unavailable(&mut self, id: u64)
        ensures
            final(self)@.current_user == old(self)@.current_user,
            old(self)@.guilds.contains_key(id) ==> {
                &&& final(self)@.guilds == old(self)@.guilds.insert(
                    id,
                    (GuildView {
                        unavailable: true,
                        channels: Seq::empty(),
                        roles: Seq::empty(),
                        ..old(self)@.guilds[id]
                    }),
                )
                &&& final(self)@.channels == old(self)@.channels.remove_keys(
                    old(self)@.guilds[id].channels.to_set(),
                )
                &&& final(self)@.roles == old(self)@.roles.remove_keys(
                    old(self)@.guilds[id].roles.to_set(),
                )
            },
            !old(self)@.guilds.contains_key(id) ==> final(self)@ == old(self)@,
    {
        let ghost m = self.guilds@;
        let removed = self.guilds.remove(&id);
        proof {
            lemma_map_values_remove(m, |g: CachedGuild| g@, id);
            assert(self@.guilds =~= old(self)@.guilds.remove(id));
        }
        match removed {
            Some(mut guild) => {
                self.remove_entities(&guild.channels, &guild.roles);
                guild.unavailable = true;
                guild.channels = Vec::new();
                guild.roles = Vec::new();
                proof {
                    assert(guild@.channels =~= Seq::<u64>::empty());
                    assert(guild@.roles =~= Seq::<u64>::empty());
                    assert(guild@ =~= (GuildView {
                        unavailable: true,
                        channels: Seq::empty(),
                        roles: Seq::empty(),
                        ..old(self)@.guilds[id]
                    }));
                }
                let ghost m = self.guilds@;
                let ghost gexec = guild;
                self.guilds.insert(id, guild);
                proof {
                    lemma_map_values_insert(m, |g: CachedGuild| g@, id, gexec);
                    assert(self@.guilds =~= old(self)@.guilds.remove(id).insert(id, gexec@));
                    assert(old(self)@.guilds.remove(id).insert(id, gexec@) =~= old(
                        self,
                    )@.guilds.insert(id, gexec@));
                }
            },
            None => {
                proof {
                    assert(self@ =~= old(self)@);
                }
            },
        }
    }

    /// Read the bot's own membership in a guild.
    pub fn get_current_member(&self, guild_id: u64) -> (r: Option<&CurrentMember>)
        ensures
            match r {
                Some(m) => self@.guilds.contains_key(guild_id)
                    && self@.guilds[guild_id].current_member == Some(m@),
                None => !self@.guilds.contains_key(guild_id) || self@.guilds[
                    guild_id
                ].current_member is None,
            },
    {
        match self.guilds.get(&guild_id) {
            Some(guild) => match &guild.current_member {
                Some(m) => Some(m),
                None => None,
            },
            None => None,
        }
    }

    /// Store the bot's own membership in a guild.
    ///
    /// A no-op when the guild is not cached.
    pub fn set_current_member(&mut self, guild_id: u64, member: CurrentMember) -> (r: Option<
        CurrentMember,
    >)
        ensures
            final(self)@.current_user == old(self)@.current_user,
            final(self)@.channels == old(self)@.channels,
            final(self)@.roles == old(self)@.roles,
            old(self)@.guilds.contains_key(guild_id) ==> final(self)@.guilds == old(
                self,
            )@.guilds.insert(
                guild_id,
                (GuildView { current_member: Some(member@), ..old(self)@.guilds[guild_id] }),
            ),
            !old(self)@.guilds.contains_key(guild_id) ==> final(self)@ == old(self)@,
            match r {
                Some(m) => old(self)@.guilds.contains_key(guild_id) && old(self)@.guilds[
                    guild_id
                ].current_member == Some(m@),
                None => !old(self)@.guilds.contains_key(guild_id) || old(self)@.guilds[
                    guild_id
                ].current_member is None,
            },
    {
        let guild = match self.guilds.get(&guild_id) {
            Some(guild) => guild.clone(),
            None => {
                proof {
                    assert(self@ =~= old(self)@);
                }
                return None;
            },
        };
        let mut guild = guild;
        let ghost mv = member@;
        let previous = guild.current_member;
        guild.current_member = Some(member);
        proof {
            assert(guild@ =~= (GuildView {
                current_member: Some(mv),
                ..old(self)@.guilds[guild_id]
            }));
        }
        let ghost m = self.guilds@;
        let ghost gexec = guild;
        self.guilds.insert(guild_id, guild);
        proof {
            lemma_map_values_insert(m, |g: CachedGuild| g@, guild_id, gexec);
            assert(self@.guilds =~= old(self)@.guilds.insert(guild_id, gexec@));
        }
        previous
    }
}

/// Mapping guild values commutes with inserting one guild entry.
pub(crate) proof fn lemma_guild_map_values_insert(m: Map<u64, CachedGuild>, k: u64, v: CachedGuild)
    ensures
        m.insert(k, v).map_values(|g: CachedGuild| g@) =~= m.map_values(|g: CachedGuild| g@).insert(
            k,
            v@,
        ),
{
    lemma_map_values_insert(m, |g: CachedGuild| g@, k, v);
}


/// The cached channels found for a list of channel ids, in list order,
/// skipping ids whose entity is not in the store.
pub open spec fn spec_guild_channels(c: CacheView, ids: Seq<u64>) -> Seq<ChannelView>
    decreases ids.len(),
{
    if ids.len() == 0 {
        Seq::empty()
    } else {
        let rest = spec_guild_channels(c, ids.drop_last());
        if c.channels.contains_key(ids.last()) {
            rest.push(c.channels[ids.last()])
        } else {
            rest
        }
    }
}

impl InMemoryCache {
    /// The cached channels of a guild, in membership-set order, skipping ids
    /// whose channel has already left the store. Nothing when the guild is
    /// not cached.
    pub fn guild_channels(&self, guild_id: u64) -> (r: Option<Vec<CachedChannel>>)
        ensures
            match r {
                Some(cs) => self@.guilds.contains_key(guild_id) && cs@.map_values(
                    |c: CachedChannel| c@,
                ) == spec_guild_channels(self@, self@.guilds[guild_id].channels),
                None => !self@.guilds.contains_key(guild_id),
            },
    {
        let guild = match self.guilds.get(&guild_id) {
            Some(guild) => guild,
            None => {
                return None;
            },
        };
        let ghost ids = guild.channels@;
        let mut out: Vec<CachedChannel> = Vec::new();
        let mut i: usize = 0;
        while i < guild.channels.len()
            invariant
                i <= guild.channels.len(),
                ids == guild.channels@,
                out@.map_values(|c: CachedChannel| c@) == spec_guild_channels(
                    self@,
                    ids.take(i as int),
                ),
            decreases guild.channels.len() - i,
        {
            proof {
                assert(ids.take(i + 1 as int) =~= ids.take(i as int).push(ids[i as int]));
                assert(ids.take(i + 1 as int).drop_last() =~= ids.take(i as int));
            }
            let ghost pre = out@;
            match self.channels.get(&guild.channels[i]) {
                Some(channel) => {
                    out.push(channel.clone());
                    proof {
                        assert(out@.map_values(|c: CachedChannel| c@) =~= pre.map_values(
                            |c: CachedChannel| c@,
                        ).push(out@.last()@));
                    }
                },
                None => {
                },
            }
            i = i + 1;
        }
        proof {
            assert(ids.take(ids.len() as int) =~= ids);
        }
        Some(out)
    }
}

/// Turning a sequence into a set commutes with pushing one element.
pub proof fn lemma_to_set_push(s: Seq<u64>, x: u64)
    ensures
        s.push(x).to_set() =~= s.to_set().insert(x),
{
    assert forall|e: u64| s.push(x).to_set().contains(e) implies s.to_set().insert(x).contains(
        e,
    ) by {
        let i = choose|i: int| 0 <= i < s.push(x).len() && s.push(x)[i] == e;
        if i < s.len() {
            assert(s[i] == e);
        }
    }
    assert forall|e: u64| s.to_set().insert(x).contains(e) implies s.push(x).to_set().contains(
        e,
    ) by {
        if s.to_set().contains(e) {
            let i = choose|i: int| 0 <= i < s.len() && s[i] == e;
            assert(s.push(x)[i] == e);
        } else {
            assert(s.push(x)[s.len() as int] == x);
        }
    }
}

} // verus!
