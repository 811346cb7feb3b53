//! A chat-driven music bot for TeamSpeak servers.
pub mod audio;
pub mod command;
pub mod command_laws;
pub mod connection;
pub mod lookup;
pub mod media;
pub mod playback;
pub mod playback_laws;
pub mod player;
pub mod player_laws;
pub mod relay;
pub mod server;
pub mod startup;
pub mod task;
pub mod text;
