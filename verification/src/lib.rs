//! Omniform: a desktop front end that downloads and converts media with
//! yt-dlp and ffmpeg. This library holds its logic, with its proofs:
//!
//! - `text`: whitespace trimming, prefixes and separators over characters;
//! - `progress`: reading yt-dlp's progress lines;
//! - `args`: the yt-dlp command lines for a format and quality;
//! - `downloads`: the events of a download and how it ended;
//! - `dependencies`: where yt-dlp and ffmpeg come from, and the steps that
//!   install and update them;
//! - `archives`: unpacking the ffmpeg download;
//! - `history`: the list of past downloads;
//! - `folders`: the default output folder and showing a file in its folder.
pub mod text;
pub mod progress;
pub mod args;
pub mod downloads;
pub mod dependencies;
pub mod history;
pub mod archives;
pub mod folders;
