//! The verified core of a Discord bot for a pirate crew: the links it builds
//! to the game's web services, the channel checks on its commands, the way it
//! reads the game's presence answers when a raid starts, the replies of its
//! points commands and the answers of its error hooks.
pub mod commands;
pub mod config;
pub mod constant;
pub mod hooks;
pub mod json;
pub mod models;
pub mod text;
