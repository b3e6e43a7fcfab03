//! Backend logic of an audio-file browser: which directory entries are audio
//! files, what their tags say (artist, album, cover art, lyrics) for MP3 and
//! FLAC, and the text-safe form in which bytes reach the display layer.

pub mod blob;
pub mod commands;
pub mod flac_layout;
pub mod metadata;
pub mod models;
pub mod paths;
