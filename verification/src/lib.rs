//! Core logic of a small community chat bot.
//!
//! The bot assigns an incrementing numeric suffix to member display names,
//! answers a liveness command, and runs a self-service role menu driven by
//! emoji reactions.  This crate holds the bot's decisions and computations:
//! the shared counter, the persisted-counter text format, command dispatch,
//! nickname formatting, the role menu, and the reaction-to-role-action rule.
//! Network transport, file access, and event delivery live outside it.

pub mod commands;
pub mod counter;
pub mod numtext;
pub mod reactions;
pub mod roles;
pub mod strutil;
