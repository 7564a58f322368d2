//! Pure decision logic of the chat commands.
//!
//! The command layer around the core parses interactions, builds embeds and
//! talks to the transport; the decisions themselves — who may kick whom, and
//! what a command model looks like — are plain functions over resolved
//! permission data and live here.

use vstd::prelude::*;

use crate::permission::PERMISSION_KICK_MEMBERS;

verus! {

/// Help command model.
#[derive(Clone, Debug, PartialEq, Eq)]
pub struct HelpCommand {
    /// Displays the help for a specific command.
    pub command: Option<Command>,
}

/// Command list model.
#[derive(Clone, Copy, Debug, PartialEq, Eq, Structural)]
pub enum Command {
    /// The test command.
    Test,
}

/// Arguments of the captcha-generation command-line tool.
#[derive(Clone, Debug, PartialEq, Eq)]
pub struct CaptchaArgs {
    /// Code of the generated captcha (random if missing).
    pub code: Option<String>,
    /// Length of the captcha code.
    pub length: usize,
    /// Generated image output path (the image is shown in a window if
    /// missing).
    pub output: Option<String>,
    /// Whether the generated code should be easy to read for a human.
    pub human: bool,
}

/// The milliseconds timestamp embedded in a snowflake id; the platform epoch
/// starts 1420070400000 ms into the Unix epoch.
pub fn snowflake_timestamp(id: u64) -> (r: u64)
    ensures
        r == (id >> 22) + 1420070400000,
{
    proof {
        assert(id >> 22 <= 0x3FF_FFFF_FFFFu64) by (bit_vector);
    }
    (id >> 22) + 1420070400000
}

/// The seconds timestamp embedded in a snowflake id.
pub fn snowflake_timestamp_secs(id: u64) -> (r: u64)
    ensures
        r == ((id >> 22) + 1420070400000) / 1000,
{
    snowflake_timestamp(id) / 1000
}

/// Outcome of the eligibility checks of the kick command, in the order they
/// are performed.
#[derive(Clone, Copy, Debug, PartialEq, Eq, Structural)]
pub enum KickDecision {
    /// The target user is not a member of the guild.
    NotMember,
    /// The target member owns the guild and cannot be kicked.
    MemberOwner,
    /// The bot itself lacks the kick-members permission.
    BotMissingPermission,
    /// The target's highest role is not strictly below the author's.
    UserHierarchy,
    /// The target's highest role is not strictly below the bot's.
    BotHierarchy,
    /// The kick may proceed with the reason given in the command.
    Kick,
    /// The kick may proceed once a reason is collected from a modal.
    AskReason,
}

/// The eligibility decision of the kick command.
///
/// The checks run in order: membership, owner protection, the bot's own
/// kick permission, then the role hierarchy — the author and the bot must
/// each outrank the target strictly, an equal position never being
/// privileged. An eligible kick proceeds directly when a reason was given
/// and asks for one otherwise.
pub open spec fn spec_kick_decision(
    is_member: bool,
    member_is_owner: bool,
    bot_guild_permissions: u64,
    member_highest_role: i64,
    author_highest_role: i64,
    bot_highest_role: i64,
    has_reason: bool,
) -> KickDecision {
    if !is_member {
        KickDecision::NotMember
    } else if member_is_owner {
        KickDecision::MemberOwner
    } else if bot_guild_permissions & PERMISSION_KICK_MEMBERS != PERMISSION_KICK_MEMBERS {
        KickDecision::BotMissingPermission
    } else if member_highest_role >= author_highest_role {
        KickDecision::UserHierarchy
    } else if member_highest_role >= bot_highest_role {
        KickDecision::BotHierarchy
    } else if has_reason {
        KickDecision::Kick
    } else {
        KickDecision::AskReason
    }
}

/// Decide whether a kick may proceed, from the resolved permission views of
/// the author, the target member and the bot.
pub fn kick_decision(
    is_member: bool,
    member_is_owner: bool,
    bot_guild_permissions: u64,
    member_highest_role: i64,
    author_highest_role: i64,
    bot_highest_role: i64,
    has_reason: bool,
) -> (r: KickDecision)
    ensures
        r == spec_kick_decision(
            is_member,
            member_is_owner,
            bot_guild_permissions,
            member_highest_role,
            author_highest_role,
            bot_highest_role,
            has_reason,
        ),
{
    if !is_member {
        KickDecision::NotMember
    } else if member_is_owner {
        KickDecision::MemberOwner
    } else if bot_guild_permissions & PERMISSION_KICK_MEMBERS != PERMISSION_KICK_MEMBERS {
        KickDecision::BotMissingPermission
    } else if member_highest_role >= author_highest_role {
        KickDecision::UserHierarchy
    } else if member_highest_role >= bot_highest_role {
        KickDecision::BotHierarchy
    } else if has_reason {
        KickDecision::Kick
    } else {
        KickDecision::AskReason
    }
}

} // verus!
