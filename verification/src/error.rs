//! What can go wrong with a track: reading or writing it, playing it, or
//! decoding it from another format.

use vstd::prelude::*;

verus! {

/// What went wrong, with the error of the part that failed.
#[derive(Debug)]
pub enum LilacError {
    /// A file could not be read or written.
    IO(std::io::Error),
    /// A file does not hold a track.
    Json(serde_json::Error),
    /// The track could not be played.
    Playback(&'static str),
    /// The bytes could not be read as MP3.
    Mp3(minimp3::Error),
    /// The bytes could not be read as FLAC.
    Flac(claxon::Error),
    /// The bytes could not be read as Ogg Vorbis.
    Ogg(lewton::VorbisError),
    /// The bytes could not be read as WAV, or the track not written as WAV.
    Wav(hound::Error),
}

} // verus!
