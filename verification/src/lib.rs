//! Playback, download, radio and wire-protocol logic of the Kopuz music player.

pub mod albums;
pub mod catalog_messages;
pub mod api;
pub mod decode;
pub mod download_jobs;
pub mod downloads;
pub mod engine;
pub mod engine_core;
pub mod library_messages;
pub mod local_files;
pub mod messages;
pub mod output;
pub mod pipe;
pub mod player;
pub mod plugin;
pub mod plugin_auth;
pub mod proto;
pub mod radio;
pub mod range_download;
pub mod radio_page;
pub mod replaygain;
pub mod service_messages;
pub mod settings_messages;
pub mod spotify_cache;
pub mod status;
pub mod text;
pub mod worker;
