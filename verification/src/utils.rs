//! Helpers shared by the components.

pub mod api;
pub mod common;
pub mod ffmpeg;
pub mod nas;
pub mod panel;
pub mod time;
pub mod weather;
pub mod yt_dlp;
