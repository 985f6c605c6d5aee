//! Verified core of a Discord bot that manages a Minecraft server over RCON.

pub mod buttons;
pub mod commands;
pub mod config;
pub mod database;
pub mod economy;
pub mod json;
pub mod link;
pub mod number;
pub mod registration;
pub mod rcon;
pub mod reply;
pub mod text;
