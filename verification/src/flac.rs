//! Tracks from FLAC.

use crate::error::LilacError;
use crate::tags::{all_of, first_of, number_of_first, texts, values_of, Tags};
use crate::track::{Lilac, LilacView};
use claxon::FlacReader;
use std::io::Cursor;
use vstd::prelude::*;

verus! {

/// A `claxon::FlacReader` over bytes in memory. Of its value only what
/// `flac_held` names is known.
#[verifier::external_body]
pub struct FlacStream {
    reader: FlacReader<Cursor<Vec<u8>>>,
}

/// What a reader holds: the format that the header of its stream gives,
/// the comments of the stream as pairs of name and value, and the samples
/// that it has yet to give, or nothing where reading them fails.
pub struct FlacHeld {
    pub channels: u32,
    pub sample_rate: u32,
    pub bits_per_sample: u32,
    pub comments: Seq<(Seq<char>, Seq<char>)>,
    pub samples: Option<Seq<i32>>,
}

/// What the reader holds at this moment.
pub uninterp spec fn flac_held(stream: FlacStream) -> FlacHeld;

/// What a reader new on the bytes holds, where one can be made on them.
pub uninterp spec fn flac_decoded(bytes: Seq<u8>) -> Option<FlacHeld>;

/// Calls `claxon::FlacReader::new` on the bytes. What the reader holds, and
/// whether there is one, is a function of the bytes alone.
#[verifier::external_body]
fn flac_open(bytes: Vec<u8>) -> (r: Result<FlacStream, claxon::Error>)
    ensures
        match r {
            Ok(stream) => flac_decoded(bytes@) == Some(flac_held(stream)),
            Err(_) => flac_decoded(bytes@) is None,
        },
{
    Ok(FlacStream { reader: FlacReader::new(Cursor::new(bytes))? })
}

/// Calls `claxon::FlacReader::streaminfo` and gives channels, sample rate
/// and bits per sample as the reader holds them.
#[verifier::external_body]
fn flac_info(stream: &FlacStream) -> (info: (u32, u32, u32))
    ensures
        info == (
            flac_held(*stream).channels,
            flac_held(*stream).sample_rate,
            flac_held(*stream).bits_per_sample,
        ),
{
    let info = stream.reader.streaminfo();
    (info.channels, info.sample_rate, info.bits_per_sample)
}

/// Calls `claxon::FlacReader::get_tag` and gathers the values that the
/// iterator gives: those of the comments whose name is `name` but for the
/// case of English letters, in the order of the comments.
#[verifier::external_body]
fn flac_tag(stream: &FlacStream, name: &str) -> (values: Vec<String>)
    ensures
        texts(values@) == values_of(flac_held(*stream).comments, name@),
{
    stream.reader.get_tag(name).map(|value| value.to_owned()).collect()
}

/// Calls `claxon::FlacReader::samples` and gathers what the iterator
/// gives: all the samples that the reader held, or the first error.
#[verifier::external_body]
fn flac_samples(stream: &mut FlacStream) -> (r: Result<Vec<i32>, claxon::Error>)
    ensures
        match r {
            Ok(samples) => flac_held(*old(stream)).samples == Some(samples@),
            Err(_) => flac_held(*old(stream)).samples is None,
        },
{
    stream.reader.samples().collect()
}

/// The track that a FLAC stream holds, where it can be read to its end:
/// the format of its header and its samples; as title and album the first
/// that the comments name, as artist all that they name, and as track
/// number the first that they name, where it is a number.
pub open spec fn flac_track(bytes: Seq<u8>) -> Option<LilacView> {
    match flac_decoded(bytes) {
        Some(held) => match held.samples {
            Some(samples) => Some(
                LilacView {
                    title: first_of(values_of(held.comments, "TITLE"@)),
                    artist: all_of(values_of(held.comments, "ARTIST"@)),
                    year: None,
                    album: first_of(values_of(held.comments, "ALBUM"@)),
                    track: number_of_first(values_of(held.comments, "TRACKNUMBER"@)),
                    channels: held.channels as u16,
                    sample_rate: held.sample_rate,
                    bit_depth: held.bits_per_sample,
                    samples,
                },
            ),
            None => None,
        },
        None => None,
    }
}

impl Lilac {
    /// A track of the format and samples given, with `tags` and no year.
    pub fn tagged(
        tags: Tags,
        channels: u16,
        sample_rate: u32,
        bit_depth: u32,
        samples: Vec<i32>,
    ) -> (l: Lilac)
        ensures
            l@ == (LilacView {
                title: tags@.title,
                artist: tags@.artist,
                year: None,
                album: tags@.album,
                track: tags@.track,
                channels,
                sample_rate,
                bit_depth,
                samples: samples@,
            }),
    {
        Lilac {
            title: tags.title,
            artist: tags.artist,
            year: None,
            album: tags.album,
            track: tags.track,
            channels,
            sample_rate,
            bit_depth,
            samples,
        }
    }

    /// The track that a FLAC stream holds, with the tags of its comments.
    pub fn from_flac(bytes: Vec<u8>) -> (r: Result<Lilac, LilacError>)
        ensures
            match flac_track(bytes@) {
                Some(track) => r matches Ok(l) && l@ == track,
                None => r matches Err(e) && e is Flac,
            },
    {
        let mut reader = match flac_open(bytes) {
            Ok(reader) => reader,
            Err(e) => {
                return Err(LilacError::Flac(e));
            },
        };
        let (channels, sample_rate, bits_per_sample) = flac_info(&reader);
        let titles = flac_tag(&reader, "TITLE");
        let artists = flac_tag(&reader, "ARTIST");
        let albums = flac_tag(&reader, "ALBUM");
        let numbers = flac_tag(&reader, "TRACKNUMBER");
        let tags = Tags::from_values(&titles, &artists, &albums, &numbers);
        let samples = match flac_samples(&mut reader) {
            Ok(samples) => samples,
            Err(e) => {
                return Err(LilacError::Flac(e));
            },
        };
        Ok(
            Lilac::tagged(
                tags,
                #[verifier::truncate]
                (channels as u16),
                sample_rate,
                bits_per_sample,
                samples,
            ),
        )
    }
}

} // verus!
