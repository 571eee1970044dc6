//! Login and configuration core of a desktop music player.

pub mod oauth;
pub mod player_window;
pub mod playlist_window;
pub mod settings;
pub mod spotify;
pub mod text;
