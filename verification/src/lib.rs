//! SoundGIF: audio carried inside a GIF89a application extension.

pub mod buf;
pub mod cli;
pub mod convert;
pub mod crc;
pub mod desktop;
pub mod embed;
pub mod error;
pub mod extension;
pub mod ffmpeg;
pub mod gif;
pub mod le;
pub mod media;
pub mod ops;
pub mod payload;
pub mod player;
pub mod text;
pub mod ui;
