//! Core logic of the Vanguard download manager: text handling, download
//! planning and progress accounting, kept apart from the desktop shell.

pub mod clipboard;
pub mod commands;
pub mod events;
pub mod http_transfer;
pub mod media;
pub mod native_messaging;
pub mod paths;
pub mod queue;
pub mod registry;
pub mod security;
pub mod text;
pub mod tools;
pub mod torrent;
pub mod ytdlp;
