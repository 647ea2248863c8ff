//! Hydrogen: the music player logic of a Lavalink-backed Discord music bot.

pub mod cluster;
pub mod config;
pub mod events;
pub mod handler;
pub mod i18n;
pub mod manager;
pub mod message;
pub mod model;
pub mod player;
pub mod replies;
pub mod response;
pub mod routes;
pub mod text;
pub mod time_parsers;
