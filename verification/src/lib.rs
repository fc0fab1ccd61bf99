//! Decision core of a Discord voice-channel music bot.
//!
//! The bot joins a voice channel, queues audio sources by URL, and leaves on
//! its own after repeatedly finding the channel empty.  Everything the bot
//! decides — how a chat command is validated, how the playback queue changes,
//! what reply each command earns, and when the idle watchdog disconnects — is
//! implemented and verified here, over a plain model of the session state.
//! The gateway, voice and audio work itself is left to the surrounding
//! application, which performs the actions these decisions call for.

pub mod commands;
pub mod reply;
pub mod roster;
pub mod session;
pub mod text;
pub mod watchdog;
