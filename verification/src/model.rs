//! Cached entity models.
//!
//! Entities mirror the subset of the platform's data that permission
//! resolution needs: guilds, channels (text, category, thread), roles and the
//! bot's own membership. Every cross-entity relationship is an id, never an
//! ownership pointer; the id sets live on the guild and index the independent
//! channel and role stores.

use vstd::prelude::*;

verus! {

/// Channel classification as reported by the platform.
#[derive(Clone, Copy, Debug, PartialEq, Eq, Structural)]
pub enum ChannelType {
    /// Guild text channel.
    GuildText,
    /// Guild category.
    GuildCategory,
    /// Announcement channel; behaves as a text channel here.
    GuildNews,
    /// Public thread.
    GuildPublicThread,
    /// Private thread.
    GuildPrivateThread,
    /// Thread under an announcement channel.
    GuildNewsThread,
    /// Any other channel kind (voice, direct message, ...): never cached.
    Other,
}

impl ChannelType {
    /// Whether this kind is one of the thread kinds.
    pub open spec fn spec_is_thread(self) -> bool {
        self == ChannelType::GuildPublicThread || self == ChannelType::GuildPrivateThread
            || self == ChannelType::GuildNewsThread
    }

    /// Whether this kind is one of the thread kinds.
    pub fn is_thread(&self) -> (r: bool)
        ensures
            r == self.spec_is_thread(),
    {
        matches!(
            self,
            ChannelType::GuildPublicThread | ChannelType::GuildPrivateThread
                | ChannelType::GuildNewsThread
        )
    }
}

/// Target of a permission overwrite: a whole role or a single member.
#[derive(Clone, Copy, Debug, PartialEq, Eq, Structural)]
pub enum PermissionOverwriteType {
    /// The overwrite applies to every holder of a role.
    Role,
    /// The overwrite applies to one member.
    Member,
}

/// Per-channel allow/deny bitmask override targeting a role or a member.
#[derive(Clone, Copy, Debug, PartialEq, Eq, Structural)]
pub struct PermissionOverwrite {
    /// Id of the targeted role or member.
    pub id: u64,
    /// Whether `id` names a role or a member.
    pub kind: PermissionOverwriteType,
    /// Bits granted by this overwrite.
    pub allow: u64,
    /// Bits denied by this overwrite.
    pub deny: u64,
}

/// Cached model of a text channel.
#[derive(Debug, PartialEq, Eq)]
pub struct CachedTextChannel {
    /// Id of the channel.
    pub id: u64,
    /// Id of the guild to which the channel belongs.
    pub guild_id: u64,
    /// Name of the channel.
    pub name: String,
    /// If the channel is in a category, the category id.
    pub parent_id: Option<u64>,
    /// Sorting position of the channel.
    pub position: i16,
    /// Permission overwrites of the channel.
    pub permission_overwrites: Vec<PermissionOverwrite>,
    /// Amount of seconds a user has to wait between two messages.
    pub rate_limit_per_user: Option<u16>,
}

/// Cached model of a category channel.
#[derive(Debug, PartialEq, Eq)]
pub struct CachedCategoryChannel {
    /// Id of the category.
    pub id: u64,
    /// Id of the guild to which the category belongs.
    pub guild_id: u64,
    /// Name of the category.
    pub name: String,
    /// Sorting position of the category.
    pub position: i16,
    /// Permission overwrites of the category.
    pub permission_overwrites: Vec<PermissionOverwrite>,
}

/// Cached model of a public or private thread.
///
/// A thread carries no permission overwrites of its own; it is resolved
/// against its parent channel.
#[derive(Debug, PartialEq, Eq)]
pub struct CachedThread {
    /// Id of the thread.
    pub id: u64,
    /// Id of the guild to which the thread belongs.
    pub guild_id: u64,
    /// Name of the thread.
    pub name: String,
    /// Whether the thread is private.
    pub private: bool,
    /// Parent channel of the thread.
    pub parent_id: u64,
    /// Amount of seconds a user has to wait between two messages.
    pub rate_limit_per_user: Option<u16>,
}

/// Cached model of a channel.
///
/// Only text channels, categories and threads are cached: the bot does not
/// interact with the other kinds.
#[derive(Debug, PartialEq, Eq)]
pub enum CachedChannel {
    /// Text channel.
    Text(CachedTextChannel),
    /// Category channel.
    Category(CachedCategoryChannel),
    /// Public or private thread.
    Thread(CachedThread),
}

/// Mathematical model of a [`CachedTextChannel`].
#[verifier::ext_equal]
pub struct TextChannelView {
    pub id: u64,
    pub guild_id: u64,
    pub name: Seq<char>,
    pub parent_id: Option<u64>,
    pub position: i16,
    pub permission_overwrites: Seq<PermissionOverwrite>,
    pub rate_limit_per_user: Option<u16>,
}

/// Mathematical model of a [`CachedCategoryChannel`].
#[verifier::ext_equal]
pub struct CategoryChannelView {
    pub id: u64,
    pub guild_id: u64,
    pub name: Seq<char>,
    pub position: i16,
    pub permission_overwrites: Seq<PermissionOverwrite>,
}

/// Mathematical model of a [`CachedThread`].
#[verifier::ext_equal]
pub struct ThreadView {
    pub id: u64,
    pub guild_id: u64,
    pub name: Seq<char>,
    pub private: bool,
    pub parent_id: u64,
    pub rate_limit_per_user: Option<u16>,
}

/// Mathematical model of a [`CachedChannel`].
#[verifier::ext_equal]
pub enum ChannelView {
    Text(TextChannelView),
    Category(CategoryChannelView),
    Thread(ThreadView),
}

impl View for CachedTextChannel {
    type V = TextChannelView;

    open spec fn view(&self) -> TextChannelView {
        TextChannelView {
            id: self.id,
            guild_id: self.guild_id,
            name: self.name@,
            parent_id: self.parent_id,
            position: self.position,
            permission_overwrites: self.permission_overwrites@,
            rate_limit_per_user: self.rate_limit_per_user,
        }
    }
}

impl View for CachedCategoryChannel {
    type V = CategoryChannelView;

    open spec fn view(&self) -> CategoryChannelView {
        CategoryChannelView {
            id: self.id,
            guild_id: self.guild_id,
            name: self.name@,
            position: self.position,
            permission_overwrites: self.permission_overwrites@,
        }
    }
}

impl View for CachedThread {
    type V = ThreadView;

    open spec fn view(&self) -> ThreadView {
        ThreadView {
            id: self.id,
            guild_id: self.guild_id,
            name: self.name@,
            private: self.private,
            parent_id: self.parent_id,
            rate_limit_per_user: self.rate_limit_per_user,
        }
    }
}

impl View for CachedChannel {
    type V = ChannelView;

    open spec fn view(&self) -> ChannelView {
        match self {
            CachedChannel::Text(c) => ChannelView::Text(c@),
            CachedChannel::Category(c) => ChannelView::Category(c@),
            CachedChannel::Thread(c) => ChannelView::Thread(c@),
        }
    }
}

impl ChannelView {
    /// Id of the channel.
    pub open spec fn id(self) -> u64 {
        match self {
            ChannelView::Text(c) => c.id,
            ChannelView::Category(c) => c.id,
            ChannelView::Thread(c) => c.id,
        }
    }

    /// Id of the owning guild.
    pub open spec fn guild_id(self) -> u64 {
        match self {
            ChannelView::Text(c) => c.guild_id,
            ChannelView::Category(c) => c.guild_id,
            ChannelView::Thread(c) => c.guild_id,
        }
    }

    /// Kind classification of the channel.
    ///
    /// Threads always classify as the generic public-thread kind: the exact
    /// thread subtype is intentionally not retained.
    pub open spec fn kind(self) -> ChannelType {
        match self {
            ChannelView::Text(_) => ChannelType::GuildText,
            ChannelView::Category(_) => ChannelType::GuildCategory,
            ChannelView::Thread(_) => ChannelType::GuildPublicThread,
        }
    }

    /// Permission overwrites carried by the channel; a thread carries none.
    pub open spec fn overwrites(self) -> Seq<PermissionOverwrite> {
        match self {
            ChannelView::Text(c) => c.permission_overwrites,
            ChannelView::Category(c) => c.permission_overwrites,
            ChannelView::Thread(_) => Seq::empty(),
        }
    }
}

impl CachedChannel {
    /// Get the id of the channel.
    pub fn id(&self) -> (r: u64)
        ensures
            r == self@.id(),
    {
        match self {
            CachedChannel::Text(channel) => channel.id,
            CachedChannel::Category(channel) => channel.id,
            CachedChannel::Thread(channel) => channel.id,
        }
    }

    /// Get the id of the guild to which the channel belongs.
    pub fn guild_id(&self) -> (r: u64)
        ensures
            r == self@.guild_id(),
    {
        match self {
            CachedChannel::Text(channel) => channel.guild_id,
            CachedChannel::Category(channel) => channel.guild_id,
            CachedChannel::Thread(channel) => channel.guild_id,
        }
    }

    /// Get the kind of the channel.
    ///
    /// This always returns the generic public-thread kind for threads, even
    /// for a private thread, because the exact thread type is not stored.
    pub fn kind(&self) -> (r: ChannelType)
        ensures
            r == self@.kind(),
    {
        match self {
            CachedChannel::Text(_) => ChannelType::GuildText,
            CachedChannel::Category(_) => ChannelType::GuildCategory,
            CachedChannel::Thread(_) => ChannelType::GuildPublicThread,
        }
    }

    /// Get the permission overwrites of the channel.
    ///
    /// No overwrites are returned for thread channels.
    pub fn permissions(&self) -> (r: Vec<PermissionOverwrite>)
        ensures
            r@ == self@.overwrites(),
    {
        match self {
            CachedChannel::Text(channel) => copy_overwrites(&channel.permission_overwrites),
            CachedChannel::Category(channel) => copy_overwrites(&channel.permission_overwrites),
            CachedChannel::Thread(_) => Vec::new(),
        }
    }

    /// Whether the model caches channels of the given kind.
    pub open spec fn spec_is_cached(kind: ChannelType) -> bool {
        kind != ChannelType::Other
    }

    /// Whether a [`ChannelType`] can be cached with this model.
    pub fn is_cached(kind: ChannelType) -> (r: bool)
        ensures
            r == CachedChannel::spec_is_cached(kind),
    {
        matches!(
            kind,
            ChannelType::GuildText | ChannelType::GuildCategory | ChannelType::GuildNews
                | ChannelType::GuildPublicThread | ChannelType::GuildPrivateThread
                | ChannelType::GuildNewsThread
        )
    }
}

/// Copy a list of permission overwrites element by element.
pub fn copy_overwrites(v: &Vec<PermissionOverwrite>) -> (r: Vec<PermissionOverwrite>)
    ensures
        r@ == v@,
{
    let mut r: Vec<PermissionOverwrite> = Vec::new();
    let mut i: usize = 0;
    while i < v.len()
        invariant
            i <= v.len(),
            r@ == v@.take(i as int),
        decreases v.len() - i,
    {
        r.push(v[i]);
        proof {
            assert(v@.take(i + 1 as int) =~= v@.take(i as int).push(v@[i as int]));
        }
        i = i + 1;
    }
    proof {
        assert(v@.take(v@.len() as int) =~= v@);
    }
    r
}

/// Copy a list of ids element by element.
pub fn copy_ids(v: &Vec<u64>) -> (r: Vec<u64>)
    ensures
        r@ == v@,
{
    let mut r: Vec<u64> = Vec::new();
    let mut i: usize = 0;
    while i < v.len()
        invariant
            i <= v.len(),
            r@ == v@.take(i as int),
        decreases v.len() - i,
    {
        r.push(v[i]);
        proof {
            assert(v@.take(i + 1 as int) =~= v@.take(i as int).push(v@[i as int]));
        }
        i = i + 1;
    }
    proof {
        assert(v@.take(v@.len() as int) =~= v@);
    }
    r
}

impl Clone for CachedTextChannel {
    /// The clone is the same channel.
    fn clone(&self) -> (r: Self)
        ensures
            r@ == self@,
    {
        CachedTextChannel {
            id: self.id,
            guild_id: self.guild_id,
            name: self.name.clone(),
            parent_id: self.parent_id,
            position: self.position,
            permission_overwrites: copy_overwrites(&self.permission_overwrites),
            rate_limit_per_user: self.rate_limit_per_user,
        }
    }
}

impl Clone for CachedCategoryChannel {
    /// The clone is the same category.
    fn clone(&self) -> (r: Self)
        ensures
            r@ == self@,
    {
        CachedCategoryChannel {
            id: self.id,
            guild_id: self.guild_id,
            name: self.name.clone(),
            position: self.position,
            permission_overwrites: copy_overwrites(&self.permission_overwrites),
        }
    }
}

impl Clone for CachedThread {
    /// The clone is the same thread.
    fn clone(&self) -> (r: Self)
        ensures
            r@ == self@,
    {
        CachedThread {
            id: self.id,
            guild_id: self.guild_id,
            name: self.name.clone(),
            private: self.private,
            parent_id: self.parent_id,
            rate_limit_per_user: self.rate_limit_per_user,
        }
    }
}

impl Clone for CachedChannel {
    /// The clone is the same channel.
    fn clone(&self) -> (r: Self)
        ensures
            r@ == self@,
    {
        match self {
            CachedChannel::Text(c) => CachedChannel::Text(c.clone()),
            CachedChannel::Category(c) => CachedChannel::Category(c.clone()),
            CachedChannel::Thread(c) => CachedChannel::Thread(c.clone()),
        }
    }
}

impl From<CachedTextChannel> for CachedChannel {
    /// Wrap a text channel.
    fn from(channel: CachedTextChannel) -> (r: CachedChannel) {
        CachedChannel::Text(channel)
    }
}

impl vstd::std_specs::convert::FromSpecImpl<CachedTextChannel> for CachedChannel {
    open spec fn obeys_from_spec() -> bool {
        true
    }

    open spec fn from_spec(channel: CachedTextChannel) -> CachedChannel {
        CachedChannel::Text(channel)
    }
}

impl From<CachedCategoryChannel> for CachedChannel {
    /// Wrap a category channel.
    fn from(channel: CachedCategoryChannel) -> (r: CachedChannel) {
        CachedChannel::Category(channel)
    }
}

impl vstd::std_specs::convert::FromSpecImpl<CachedCategoryChannel> for CachedChannel {
    open spec fn obeys_from_spec() -> bool {
        true
    }

    open spec fn from_spec(channel: CachedCategoryChannel) -> CachedChannel {
        CachedChannel::Category(channel)
    }
}

impl From<CachedThread> for CachedChannel {
    /// Wrap a thread.
    fn from(thread: CachedThread) -> (r: CachedChannel) {
        CachedChannel::Thread(thread)
    }
}

impl vstd::std_specs::convert::FromSpecImpl<CachedThread> for CachedChannel {
    open spec fn obeys_from_spec() -> bool {
        true
    }

    open spec fn from_spec(thread: CachedThread) -> CachedChannel {
        CachedChannel::Thread(thread)
    }
}

/// Cached model of a role.
#[derive(Debug, PartialEq, Eq)]
pub struct CachedRole {
    /// Id of the role.
    pub id: u64,
    /// Id of the guild to which the role belongs.
    pub guild_id: u64,
    /// Permission bitmask of the role.
    pub permissions: u64,
    /// Position of the role, used for hierarchy comparisons.
    pub position: i64,
    /// Color of the role.
    pub color: u32,
    /// Whether the role can be mentioned.
    pub mentionable: bool,
}

/// Mathematical model of a [`CachedRole`].
///
/// Every field is a plain value, so the role is its own model.
#[verifier::ext_equal]
pub struct RoleView {
    pub id: u64,
    pub guild_id: u64,
    pub permissions: u64,
    pub position: i64,
    pub color: u32,
    pub mentionable: bool,
}

impl View for CachedRole {
    type V = RoleView;

    open spec fn view(&self) -> RoleView {
        RoleView {
            id: self.id,
            guild_id: self.guild_id,
            permissions: self.permissions,
            position: self.position,
            color: self.color,
            mentionable: self.mentionable,
        }
    }
}

impl Clone for CachedRole {
    /// The clone is the same role.
    fn clone(&self) -> (r: Self)
        ensures
            r@ == self@,
    {
        CachedRole {
            id: self.id,
            guild_id: self.guild_id,
            permissions: self.permissions,
            position: self.position,
            color: self.color,
            mentionable: self.mentionable,
        }
    }
}

/// The bot's own membership in a guild.
///
/// This is only ever maintained for the bot's own user, never for arbitrary
/// members.
#[derive(Debug, PartialEq, Eq)]
pub struct CurrentMember {
    /// Id of the bot user.
    pub id: u64,
    /// Until when the member is timed out, if at all.
    pub communication_disabled_until: Option<u64>,
    /// Resolved set of role ids the bot holds in the guild.
    pub roles: Vec<u64>,
}

/// Mathematical model of a [`CurrentMember`].
#[verifier::ext_equal]
pub struct MemberView {
    pub id: u64,
    pub communication_disabled_until: Option<u64>,
    pub roles: Seq<u64>,
}

impl View for CurrentMember {
    type V = MemberView;

    open spec fn view(&self) -> MemberView {
        MemberView {
            id: self.id,
            communication_disabled_until: self.communication_disabled_until,
            roles: self.roles@,
        }
    }
}

impl Clone for CurrentMember {
    /// The clone is the same membership record.
    fn clone(&self) -> (r: Self)
        ensures
            r@ == self@,
    {
        CurrentMember {
            id: self.id,
            communication_disabled_until: self.communication_disabled_until,
            roles: copy_ids(&self.roles),
        }
    }
}

/// Cached model of a guild.
///
/// The guild owns the membership id sets, not the channel and role entities
/// themselves: those live in their own stores.
#[derive(Debug, PartialEq, Eq)]
pub struct CachedGuild {
    /// Id of the guild.
    pub id: u64,
    /// Name of the guild.
    pub name: String,
    /// Icon hash of the guild, if any.
    pub icon: Option<String>,
    /// Id of the guild owner.
    pub owner_id: u64,
    /// Whether the guild is currently unavailable.
    pub unavailable: bool,
    /// Ids of the cached channels of the guild.
    pub channels: Vec<u64>,
    /// Ids of the cached roles of the guild.
    pub roles: Vec<u64>,
    /// The bot's own membership in the guild, once known.
    pub current_member: Option<CurrentMember>,
}

/// Mathematical model of a [`CachedGuild`].
#[verifier::ext_equal]
pub struct GuildView {
    pub id: u64,
    pub name: Seq<char>,
    pub icon: Option<Seq<char>>,
    pub owner_id: u64,
    pub unavailable: bool,
    pub channels: Seq<u64>,
    pub roles: Seq<u64>,
    pub current_member: Option<MemberView>,
}

impl View for CachedGuild {
    type V = GuildView;

    open spec fn view(&self) -> GuildView {
        GuildView {
            id: self.id,
            name: self.name@,
            icon: match self.icon {
                Some(icon) => Some(icon@),
                None => None,
            },
            owner_id: self.owner_id,
            unavailable: self.unavailable,
            channels: self.channels@,
            roles: self.roles@,
            current_member: match self.current_member {
                Some(m) => Some(m@),
                None => None,
            },
        }
    }
}

impl Clone for CachedGuild {
    /// The clone is the same guild.
    fn clone(&self) -> (r: Self)
        ensures
            r@ == self@,
    {
        CachedGuild {
            id: self.id,
            name: self.name.clone(),
            icon: match &self.icon {
                Some(icon) => Some(icon.clone()),
                None => None,
            },
            owner_id: self.owner_id,
            unavailable: self.unavailable,
            channels: copy_ids(&self.channels),
            roles: copy_ids(&self.roles),
            current_member: match &self.current_member {
                Some(m) => Some(m.clone()),
                None => None,
            },
        }
    }
}

} // verus!
