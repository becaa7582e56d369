//! A queue of decoded audio tracks and the rules of an interactive playback
//! session over it: transport, playback clock, volume and the content of
//! each screen frame.

pub mod clock;
pub mod error;
pub mod flac;
pub mod mp3;
pub mod ogg;
pub mod outside;
pub mod path;
pub mod poll;
pub mod queue;
pub mod render;
pub mod session;
pub mod state;
pub mod stopwatch;
pub mod tags;
pub mod text;
pub mod track;
pub mod transcode;
pub mod wav;
