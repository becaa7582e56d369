//! Turning files of other formats into tracks and tracks into WAV: which
//! format a file has, and what the file made of it is called.

use crate::error::LilacError;
use crate::flac::flac_track;
use crate::mp3::{mp3_holds_track, mp3_track};
use crate::ogg::{ogg_positions_count, ogg_track};
use crate::path::{extension, extension_of, file_stem, stem_of};
use crate::text::{replace, replaced};
use crate::track::{shown, Lilac, LilacView};
use crate::wav::wav_track;
use vstd::prelude::*;

verus! {

/// The formats that a file can have.
#[derive(Debug, Clone, Copy, PartialEq, Eq)]
pub enum Format {
    Lilac,
    Mp3,
    Flac,
    Ogg,
    Wav,
}

/// Bytes at the start of a file that a format is told by.
pub const MAGIC_LEN: usize = 12;

/// `text` in lower case, as `str::to_lowercase` gives it.
pub uninterp spec fn lowercase_of(text: Seq<char>) -> Seq<char>;

/// Calls `str::to_lowercase`. The result is a function of the text alone.
#[verifier::external_body]
fn to_lowercase(text: &str) -> (lower: String)
    ensures
        lower@ == lowercase_of(text@),
{
    text.to_lowercase()
}

/// The format that an extension in lower case names.
pub open spec fn format_named(ext: Seq<char>) -> Option<Format> {
    if ext == "lilac"@ {
        Some(Format::Lilac)
    } else if ext == "mp3"@ {
        Some(Format::Mp3)
    } else if ext == "flac"@ {
        Some(Format::Flac)
    } else if ext == "ogg"@ {
        Some(Format::Ogg)
    } else if ext == "wav"@ {
        Some(Format::Wav)
    } else {
        None
    }
}

/// The format that the extension of `path` names, whatever its case.
pub open spec fn format_of_path(path: Seq<char>) -> Option<Format> {
    match extension_of(path) {
        Some(ext) => format_named(lowercase_of(ext)),
        None => None,
    }
}

/// `bytes` holds `magic` from `at` on.
pub open spec fn holds(bytes: Seq<u8>, at: int, magic: Seq<u8>) -> bool {
    at + magic.len() <= bytes.len() && bytes.subrange(at, at + magic.len()) == magic
}

/// The start of an MP3 file: one of three frame headers, or an ID3 tag.
pub open spec fn starts_mp3(bytes: Seq<u8>) -> bool {
    ||| holds(bytes, 0, seq![0xFFu8, 0xFBu8])
    ||| holds(bytes, 0, seq![0xFFu8, 0xF3u8])
    ||| holds(bytes, 0, seq![0xFFu8, 0xF2u8])
    ||| holds(bytes, 0, seq![0x49u8, 0x44u8, 0x33u8])
}

/// The start of a FLAC file: `fLaC`.
pub open spec fn starts_flac(bytes: Seq<u8>) -> bool {
    holds(bytes, 0, seq![0x66u8, 0x4Cu8, 0x61u8, 0x43u8])
}

/// The start of an Ogg file: `OggS`.
pub open spec fn starts_ogg(bytes: Seq<u8>) -> bool {
    holds(bytes, 0, seq![0x4Fu8, 0x67u8, 0x67u8, 0x53u8])
}

/// The mark of a WAV file: `WAVE` after the eight bytes of the RIFF header.
pub open spec fn marks_wav(bytes: Seq<u8>) -> bool {
    holds(bytes, 8, seq![0x57u8, 0x41u8, 0x56u8, 0x45u8])
}

/// The format that the start of a file tells: the first of MP3, FLAC, Ogg
/// and WAV whose mark it bears, and a track's own format where it bears
/// none. A file shorter than `MAGIC_LEN` tells nothing.
pub open spec fn detected(bytes: Seq<u8>) -> Option<Format> {
    if bytes.len() < MAGIC_LEN {
        None
    } else if starts_mp3(bytes) {
        Some(Format::Mp3)
    } else if starts_flac(bytes) {
        Some(Format::Flac)
    } else if starts_ogg(bytes) {
        Some(Format::Ogg)
    } else if marks_wav(bytes) {
        Some(Format::Wav)
    } else {
        Some(Format::Lilac)
    }
}

impl Format {
    /// The extension of files of the format.
    pub open spec fn extension_text(self) -> Seq<char> {
        match self {
            Format::Lilac => "lilac"@,
            Format::Mp3 => "mp3"@,
            Format::Flac => "flac"@,
            Format::Ogg => "ogg"@,
            Format::Wav => "wav"@,
        }
    }

    /// The extension of the file that a file of the format is turned into:
    /// a track becomes WAV, and everything else a track.
    pub open spec fn target_text(self) -> Seq<char> {
        match self {
            Format::Lilac => "wav"@,
            _ => "lilac"@,
        }
    }

    /// The extension of files of the format.
    pub fn extension(self) -> (ext: &'static str)
        ensures
            ext@ == self.extension_text(),
    {
        match self {
            Format::Lilac => "lilac",
            Format::Mp3 => "mp3",
            Format::Flac => "flac",
            Format::Ogg => "ogg",
            Format::Wav => "wav",
        }
    }

    /// The extension of the file that a file of the format is turned into.
    pub fn target(self) -> (ext: &'static str)
        ensures
            ext@ == self.target_text(),
    {
        match self {
            Format::Lilac => "wav",
            _ => "lilac",
        }
    }

    /// The format that an extension in lower case names.
    pub fn named(ext: &str) -> (format: Option<Format>)
        ensures
            format == format_named(ext@),
    {
        if ext.eq("lilac") {
            Some(Format::Lilac)
        } else if ext.eq("mp3") {
            Some(Format::Mp3)
        } else if ext.eq("flac") {
            Some(Format::Flac)
        } else if ext.eq("ogg") {
            Some(Format::Ogg)
        } else if ext.eq("wav") {
            Some(Format::Wav)
        } else {
            None
        }
    }

    /// The format that the extension of `path` names, whatever its case;
    /// nothing where the path has no extension or an unknown one.
    pub fn of_path(path: &str) -> (format: Option<Format>)
        ensures
            format == format_of_path(path@),
    {
        match extension(path) {
            Some(ext) => {
                let lower = to_lowercase(ext.as_str());
                Format::named(lower.as_str())
            },
            None => None,
        }
    }
}

/// Whether `bytes` holds `magic` from `at` on.
fn holds_at(bytes: &[u8], at: usize, magic: &[u8]) -> (found: bool)
    requires
        at + magic@.len() <= usize::MAX,
    ensures
        found == holds(bytes@, at as int, magic@),
{
    if magic.len() > bytes.len() || at > bytes.len() - magic.len() {
        return false;
    }
    let mut k: usize = 0;
    while k < magic.len()
        invariant
            k <= magic.len(),
            at + magic.len() <= bytes.len(),
            forall|j: int| 0 <= j < k ==> magic@[j] == bytes@[at + j],
        decreases magic.len() - k,
    {
        if magic[k] != bytes[at + k] {
            assert(bytes@.subrange(at as int, at + magic@.len())[k as int] == bytes@[at + k]);
            return false;
        }
        k = k + 1;
    }
    assert(bytes@.subrange(at as int, at + magic@.len()) =~= magic@);
    true
}

/// The format that the start of a file tells.
pub fn detect(bytes: &[u8]) -> (format: Option<Format>)
    ensures
        format == detected(bytes@),
{
    if bytes.len() < MAGIC_LEN {
        return None;
    }
    let mp3_a: [u8; 2] = [0xFF, 0xFB];
    let mp3_b: [u8; 2] = [0xFF, 0xF3];
    let mp3_c: [u8; 2] = [0xFF, 0xF2];
    let id3: [u8; 3] = [0x49, 0x44, 0x33];
    let flac: [u8; 4] = [0x66, 0x4C, 0x61, 0x43];
    let ogg: [u8; 4] = [0x4F, 0x67, 0x67, 0x53];
    let wave: [u8; 4] = [0x57, 0x41, 0x56, 0x45];
    assert(mp3_a@ =~= seq![0xFFu8, 0xFBu8]);
    assert(mp3_b@ =~= seq![0xFFu8, 0xF3u8]);
    assert(mp3_c@ =~= seq![0xFFu8, 0xF2u8]);
    assert(id3@ =~= seq![0x49u8, 0x44u8, 0x33u8]);
    assert(flac@ =~= seq![0x66u8, 0x4Cu8, 0x61u8, 0x43u8]);
    assert(ogg@ =~= seq![0x4Fu8, 0x67u8, 0x67u8, 0x53u8]);
    assert(wave@ =~= seq![0x57u8, 0x41u8, 0x56u8, 0x45u8]);
    if holds_at(bytes, 0, mp3_a.as_slice()) || holds_at(bytes, 0, mp3_b.as_slice()) || holds_at(
        bytes,
        0,
        mp3_c.as_slice(),
    ) || holds_at(bytes, 0, id3.as_slice()) {
        Some(Format::Mp3)
    } else if holds_at(bytes, 0, flac.as_slice()) {
        Some(Format::Flac)
    } else if holds_at(bytes, 0, ogg.as_slice()) {
        Some(Format::Ogg)
    } else if holds_at(bytes, 8, wave.as_slice()) {
        Some(Format::Wav)
    } else {
        Some(Format::Lilac)
    }
}

/// The format of the file at `path` with the content `bytes`: the one that
/// its extension names, or else the one that its start tells.
pub fn format_of(path: &str, bytes: &[u8]) -> (format: Option<Format>)
    ensures
        format == match format_of_path(path@) {
            Some(f) => Some(f),
            None => detected(bytes@),
        },
{
    match Format::of_path(path) {
        Some(f) => Some(f),
        None => detect(bytes),
    }
}

/// `bytes` holds a track in `format`.
pub open spec fn holds_track(format: Format, bytes: Seq<u8>) -> bool {
    match format {
        Format::Mp3 => mp3_holds_track(bytes),
        Format::Flac => flac_track(bytes) is Some,
        Format::Ogg => ogg_track(bytes) is Some,
        _ => wav_track(bytes) is Some,
    }
}

/// `track` is a track that `bytes` holds in `format`: for FLAC, Ogg
/// Vorbis and WAV the one track that the bytes name; for MP3 one of the
/// format and the length that the headers of the frames tell.
pub open spec fn decoded(format: Format, bytes: Seq<u8>, track: LilacView) -> bool {
    match format {
        Format::Mp3 => mp3_track(bytes, track),
        Format::Flac => flac_track(bytes) == Some(track),
        Format::Ogg => ogg_track(bytes) == Some(track),
        _ => wav_track(bytes) == Some(track),
    }
}

/// The track that `bytes` holds in `format`, which is not a track's own.
/// Of an Ogg stream the positions of the pages must be such as `ogg_fits`
/// passes.
pub fn decode(format: Format, bytes: Vec<u8>) -> (r: Result<Lilac, LilacError>)
    requires
        format !is Lilac,
        format is Ogg ==> ogg_positions_count(bytes@),
    ensures
        if holds_track(format, bytes@) {
            r matches Ok(l) && decoded(format, bytes@, l@)
        } else {
            r matches Err(e) && match format {
                Format::Mp3 => e is Mp3,
                Format::Flac => e is Flac,
                Format::Ogg => e is Ogg,
                _ => e is Wav,
            }
        },
{
    match format {
        Format::Mp3 => Lilac::from_mp3(bytes),
        Format::Flac => Lilac::from_flac(bytes),
        Format::Ogg => Lilac::from_ogg(bytes),
        _ => Lilac::from_wav(bytes),
    }
}

/// The name that `pattern` gives: `%F` stands for `stem`, `%E` for the
/// extension of the file made and `%e` for that of the file read, `%T`,
/// `%A` and `%a` for title, artist and album. They are put in in this
/// order, each into the text that the one before left.
pub open spec fn named_by(
    pattern: Seq<char>,
    stem: Seq<char>,
    format: Format,
    title: Seq<char>,
    artist: Seq<char>,
    album: Seq<char>,
) -> Seq<char> {
    let with_stem = replaced(pattern, "%F"@, stem);
    let with_target = replaced(with_stem, "%E"@, format.target_text());
    let with_source = replaced(with_target, "%e"@, format.extension_text());
    let with_title = replaced(with_source, "%T"@, title);
    let with_artist = replaced(with_title, "%A"@, artist);
    replaced(with_artist, "%a"@, album)
}

/// The name of the file made of `lilac`, which was read in `format` from a
/// file with the stem `stem`.
pub fn output_name(pattern: &str, stem: &str, format: Format, lilac: &Lilac) -> (name: String)
    ensures
        name@ == named_by(
            pattern@,
            stem@,
            format,
            shown(lilac@.title),
            shown(lilac@.artist),
            shown(lilac@.album),
        ),
{
    let with_stem = replace(pattern, "%F", stem);
    let with_target = replace(with_stem.as_str(), "%E", format.target());
    let with_source = replace(with_target.as_str(), "%e", format.extension());
    let with_title = replace(with_source.as_str(), "%T", lilac.title());
    let with_artist = replace(with_title.as_str(), "%A", lilac.artist());
    replace(with_artist.as_str(), "%a", lilac.album())
}

/// The name of the file made of `lilac`, which was read in `format` from
/// the file at `path`; nothing where the path has no stem.
pub fn output_for(pattern: &str, path: &str, format: Format, lilac: &Lilac) -> (name: Option<String>)
    ensures
        crate::track::tag_text(name) == match stem_of(path@) {
            Some(stem) => Some(
                named_by(
                    pattern@,
                    stem,
                    format,
                    shown(lilac@.title),
                    shown(lilac@.artist),
                    shown(lilac@.album),
                ),
            ),
            None => None,
        },
{
    match file_stem(path) {
        Some(stem) => Some(output_name(pattern, stem.as_str(), format, lilac)),
        None => None,
    }
}

} // verus!
