//! The decisions of a video launcher that plays or downloads links with streamlink or
//! yt-dlp, keeps a watch history and installs missing tools. Outside work (running
//! programs, files, the network, the window) is left to the caller; every function here
//! computes from plain values and is verified against its contract.

pub mod history;
pub mod install;
pub mod platform;
pub mod screen;
pub mod streamlink;
pub mod text;
pub mod ui;
pub mod watch;
pub mod ytdlp;
