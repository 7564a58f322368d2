//! Core of a moderation bot for a chat platform.
//!
//! The library tracks guild structure pushed by a live event stream in an
//! in-process entity cache, and uses that cached state to decide, before every
//! privileged action, whether the bot is authorized to perform it.
//!
//! - [`model`] holds the cached entity types (guilds, channels, roles).
//! - [`cache`] is the entity cache: a sharded-by-kind store with cascading
//!   invalidation.
//! - [`event`] projects incoming gateway events onto the cache.
//! - [`permission`] reproduces the platform's permission-resolution algorithm
//!   from cached state.
//! - [`gateway`] guards outbound privileged requests behind permission checks.
//! - [`expiring`] holds the time-boxed ephemeral caches behind the
//!   background sweepers.
//! - [`logs_channel`] coordinates "create the logs channel if missing" flows so
//!   that at most one creation is in flight per guild.
//! - [`mirror`] builds the key scheme under which entities are shared with
//!   other processes.
//! - [`command`] holds the pure decision logic of the chat commands.

pub mod cache;
pub mod command;
pub mod event;
pub mod expiring;
pub mod gateway;
pub mod logs_channel;
pub mod mirror;
pub mod model;
pub mod permission;
