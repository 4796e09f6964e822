//! The core of an audio sample browser: a searched list of files, a keyboard-
//! and mouse-driven selection over it, and a single playback slot that auditions
//! the selected file. Input events go in; commands for the audio device and
//! scroll directives for the view come out.

pub mod browser;
pub mod playback;
pub mod search;
pub mod selection;
