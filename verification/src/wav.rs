//! Tracks from and to WAV.

use crate::error::LilacError;
use crate::track::{Lilac, LilacView};
use hound::{SampleFormat, WavReader, WavSpec, WavWriter};
use std::io::Cursor;
use vstd::prelude::*;

verus! {

/// `hound::WavReader`. Of its value only what `wav_held` names is known.
#[verifier::external_type_specification]
#[verifier::external_body]
#[verifier::reject_recursive_types(R)]
pub struct ExWavReader<R>(WavReader<R>);

/// What a reader holds: the format that the header of its file gives, and
/// the samples that it has yet to give, or nothing where reading them
/// fails.
pub struct WavHeld {
    pub channels: u16,
    pub sample_rate: u32,
    pub bits_per_sample: u16,
    pub samples: Option<Seq<i32>>,
}

/// What the reader holds at this moment.
pub uninterp spec fn wav_held(reader: WavReader<Cursor<Vec<u8>>>) -> WavHeld;

/// What a reader new on the bytes holds, where one can be made on them.
pub uninterp spec fn wav_decoded(bytes: Seq<u8>) -> Option<WavHeld>;

/// Calls `hound::WavReader::new` on the bytes. What the reader holds, and
/// whether there is one, is a function of the bytes alone.
#[verifier::external_body]
fn wav_open(bytes: Vec<u8>) -> (r: Result<WavReader<Cursor<Vec<u8>>>, hound::Error>)
    ensures
        match r {
            Ok(reader) => wav_decoded(bytes@) == Some(wav_held(reader)),
            Err(_) => wav_decoded(bytes@) is None,
        },
{
    WavReader::new(Cursor::new(bytes))
}

/// Calls `hound::WavReader::spec` and gives channels, sample rate and bits
/// per sample as the reader holds them.
#[verifier::external_body]
fn wav_spec(reader: &WavReader<Cursor<Vec<u8>>>) -> (spec: (u16, u32, u16))
    ensures
        spec == (
            wav_held(*reader).channels,
            wav_held(*reader).sample_rate,
            wav_held(*reader).bits_per_sample,
        ),
{
    let spec = reader.spec();
    (spec.channels, spec.sample_rate, spec.bits_per_sample)
}

/// Calls `hound::WavReader::samples` for samples of 32 bits and gathers
/// what the iterator gives: all the samples that the reader held, or the
/// first error.
#[verifier::external_body]
fn wav_samples(reader: &mut WavReader<Cursor<Vec<u8>>>) -> (r: Result<Vec<i32>, hound::Error>)
    ensures
        match r {
            Ok(samples) => wav_held(*old(reader)).samples == Some(samples@),
            Err(_) => wav_held(*old(reader)).samples is None,
        },
{
    reader.samples::<i32>().collect()
}

/// The track that a WAV file holds, where it can be read to its end: the
/// format of its header, its samples, and no tags.
pub open spec fn wav_track(bytes: Seq<u8>) -> Option<LilacView> {
    match wav_decoded(bytes) {
        Some(held) => match held.samples {
            Some(samples) => Some(
                LilacView {
                    title: None,
                    artist: None,
                    year: None,
                    album: None,
                    track: None,
                    channels: held.channels,
                    sample_rate: held.sample_rate,
                    bit_depth: held.bits_per_sample as u32,
                    samples,
                },
            ),
            None => None,
        },
        None => None,
    }
}

impl Lilac {
    /// The track that a WAV file holds. It has no tags.
    pub fn from_wav(bytes: Vec<u8>) -> (r: Result<Lilac, LilacError>)
        ensures
            match wav_track(bytes@) {
                Some(track) => r matches Ok(l) && l@ == track,
                None => r matches Err(e) && e is Wav,
            },
    {
        let mut reader = match wav_open(bytes) {
            Ok(reader) => reader,
            Err(e) => {
                return Err(LilacError::Wav(e));
            },
        };
        let (channels, sample_rate, bits_per_sample) = wav_spec(&reader);
        let samples = match wav_samples(&mut reader) {
            Ok(samples) => samples,
            Err(e) => {
                return Err(LilacError::Wav(e));
            },
        };
        Ok(Lilac::new(channels, sample_rate, bits_per_sample as u32, samples))
    }
}

/// A `hound::WavWriter` that writes to a buffer in memory. Of its value
/// only what `wav_sink_held` names is known.
#[verifier::external_body]
pub struct WavSink<'a> {
    writer: WavWriter<&'a mut Cursor<Vec<u8>>>,
}

/// What a writer holds: the format that it was made for, the samples
/// written to it so far, and the buffer that it writes to, told by the
/// bytes that this buffer holds when the writer is done with it.
pub struct WavSinkHeld {
    pub channels: u16,
    pub sample_rate: u32,
    pub bits_per_sample: u16,
    pub written: Seq<i32>,
    pub target: Seq<u8>,
}

/// What the writer holds at this moment.
pub uninterp spec fn wav_sink_held(sink: WavSink) -> WavSinkHeld;

/// The bytes that the buffer holds, and the place in them where the next
/// byte is written.
pub uninterp spec fn buffer_held(buffer: Cursor<Vec<u8>>) -> (Seq<u8>, nat);

/// The WAV file of integer samples that a writer made for the format
/// leaves in an empty buffer when the samples are written to it in order
/// and it is finalized; nothing where the writer cannot be made, refuses
/// one of the samples or cannot be finalized.
pub uninterp spec fn wav_encoded(
    channels: u16,
    sample_rate: u32,
    bits_per_sample: u16,
    samples: Seq<i32>,
) -> Option<Seq<u8>>;

/// Most bits of a sample that a writer can be asked for: it rounds them up
/// to whole bytes in a number of 16 bits.
pub const MAX_WAV_BITS: u16 = 65528;

/// Most bytes of samples that a WAV file is given here: together with its
/// header they stay below the four gigabytes that the format can count.
pub const MAX_WAV_DATA: u64 = 0xffff_ff00;

/// The depths that a writer takes: whole bytes, up to four.
pub open spec fn wav_takes(bits_per_sample: u16) -> bool {
    bits_per_sample == 8 || bits_per_sample == 16 || bits_per_sample == 24 || bits_per_sample == 32
}

/// The bytes that a sample of a depth takes.
pub open spec fn wav_bytes_of(bits_per_sample: u16) -> nat {
    ((bits_per_sample + 7) / 8) as nat
}

/// A writer can be asked for the format: there is a channel, and a depth
/// that can be rounded up to a byte or more; and where the writer takes the
/// depth, a header can tell of the format: there is a sample rate, and the
/// bytes of a second are a number of 32 bits.
pub open spec fn wav_can_tell(channels: u16, sample_rate: u32, bits_per_sample: u16) -> bool {
    &&& channels > 0
    &&& 1 <= bits_per_sample <= MAX_WAV_BITS
    &&& wav_takes(bits_per_sample) ==> {
        &&& sample_rate > 0
        &&& sample_rate * wav_bytes_of(bits_per_sample) * channels <= u32::MAX
    }
}

/// A file of the depth can count `samples` samples.
pub open spec fn wav_can_count(samples: nat, bits_per_sample: u16) -> bool {
    samples * wav_bytes_of(bits_per_sample) <= MAX_WAV_DATA
}

impl LilacView {
    /// The track can be handed to a writer: its format is one that a
    /// writer can be asked for, and where the writer takes the depth, a
    /// file can count the samples.
    pub open spec fn fits_wav(self) -> bool {
        &&& self.bit_depth <= MAX_WAV_BITS
        &&& wav_can_tell(self.channels, self.sample_rate, self.bit_depth as u16)
        &&& wav_takes(self.bit_depth as u16) ==> wav_can_count(
            self.samples.len(),
            self.bit_depth as u16,
        )
    }
}

/// Calls `std::io::Cursor::new` on an empty vector: the buffer holds no
/// byte, and the next byte is written at its start.
#[verifier::external_body]
fn wav_buffer() -> (buffer: Cursor<Vec<u8>>)
    ensures
        buffer_held(buffer) == (Seq::<u8>::empty(), 0nat),
{
    Cursor::new(Vec::new())
}

/// Calls `std::io::Cursor::into_inner`: the bytes that the buffer holds.
#[verifier::external_body]
fn wav_bytes(buffer: Cursor<Vec<u8>>) -> (bytes: Vec<u8>)
    ensures
        bytes@ == buffer_held(buffer).0,
{
    buffer.into_inner()
}

/// Calls `hound::WavWriter::new` for integer samples of the format given,
/// to write to `buffer`, which is empty. A writer is made only for a depth
/// that it takes; it holds the format and no sample yet, and `buffer` is
/// the buffer that it writes to. Where no writer can be made, none can be
/// made for the format, whatever the samples. The call rounds the depth up
/// to bytes in a number of 16 bits. For a depth that it takes, it divides
/// by the sample rate and multiplies it, the bytes of a sample and the
/// number of channels into the bytes of a second; for another depth, the
/// writer is dropped at once, and a writer that is dropped divides by the
/// bytes of a sample and by the number of channels.
#[verifier::external_body]
fn wav_writer<'a>(
    buffer: &'a mut Cursor<Vec<u8>>,
    channels: u16,
    sample_rate: u32,
    bits_per_sample: u16,
) -> (r: Result<WavSink<'a>, hound::Error>)
    requires
        wav_can_tell(channels, sample_rate, bits_per_sample),
        buffer_held(*old(buffer)) == (Seq::<u8>::empty(), 0nat),
    ensures
        match r {
            Ok(sink) => {
                &&& wav_takes(bits_per_sample)
                &&& wav_sink_held(sink).channels == channels
                &&& wav_sink_held(sink).sample_rate == sample_rate
                &&& wav_sink_held(sink).bits_per_sample == bits_per_sample
                &&& wav_sink_held(sink).written == Seq::<i32>::empty()
                &&& wav_sink_held(sink).target == buffer_held(*final(buffer)).0
            },
            Err(_) => forall|samples: Seq<i32>|
                (#[trigger] wav_encoded(channels, sample_rate, bits_per_sample, samples)) is None,
        },
{
    let spec = WavSpec { channels, sample_rate, bits_per_sample, sample_format: SampleFormat::Int };
    Ok(WavSink { writer: WavWriter::new(buffer, spec)? })
}

/// The file of the writer's format that holds the samples written so far,
/// then `sample`, then `rest`.
pub open spec fn wav_with(held: WavSinkHeld, sample: i32, rest: Seq<i32>) -> Option<Seq<u8>> {
    wav_encoded(
        held.channels,
        held.sample_rate,
        held.bits_per_sample,
        held.written.push(sample) + rest,
    )
}

/// Calls `hound::WavWriter::write_sample`. A sample that is taken is added
/// to those written, and the writer holds its format and its buffer as
/// before. A sample that is refused leaves no file to be had, whatever
/// samples would follow it. The call adds the bytes of the sample to a
/// count of the bytes written, which is a number of 32 bits.
#[verifier::external_body]
fn wav_write(sink: &mut WavSink<'_>, sample: i32) -> (r: Result<(), hound::Error>)
    requires
        wav_can_count(
            wav_sink_held(*old(sink)).written.len() + 1,
            wav_sink_held(*old(sink)).bits_per_sample,
        ),
    ensures
        match r {
            Ok(_) => wav_sink_held(*final(sink)) == (WavSinkHeld {
                written: wav_sink_held(*old(sink)).written.push(sample),
                ..wav_sink_held(*old(sink))
            }),
            Err(_) => forall|rest: Seq<i32>|
                (#[trigger] wav_with(wav_sink_held(*old(sink)), sample, rest)) is None,
        },
{
    sink.writer.write_sample(sample)
}

/// Calls `hound::WavWriter::finalize`. Where it succeeds, the buffer of the
/// writer then holds the file of the samples written; where it fails,
/// there is no such file. The call adds the length of the header to the
/// count of the bytes written, and divides by the number of channels.
#[verifier::external_body]
fn wav_finish(sink: WavSink<'_>) -> (r: Result<(), hound::Error>)
    requires
        wav_sink_held(sink).channels > 0,
        wav_can_count(wav_sink_held(sink).written.len(), wav_sink_held(sink).bits_per_sample),
    ensures
        match r {
            Ok(_) => wav_encoded(
                wav_sink_held(sink).channels,
                wav_sink_held(sink).sample_rate,
                wav_sink_held(sink).bits_per_sample,
                wav_sink_held(sink).written,
            ) == Some(wav_sink_held(sink).target),
            Err(_) => wav_encoded(
                wav_sink_held(sink).channels,
                wav_sink_held(sink).sample_rate,
                wav_sink_held(sink).bits_per_sample,
                wav_sink_held(sink).written,
            ) is None,
        },
{
    sink.writer.finalize()
}

impl Lilac {
    /// Whether the track can be handed to a writer.
    pub fn fits_wav(&self) -> (fits: bool)
        ensures
            fits == self@.fits_wav(),
    {
        if self.channels == 0 || self.bit_depth == 0 || self.bit_depth > MAX_WAV_BITS as u32 {
            return false;
        }
        let bits: u16 = self.bit_depth as u16;
        if !(bits == 8 || bits == 16 || bits == 24 || bits == 32) {
            return true;
        }
        let bytes: u64 = (bits / 8) as u64;
        assert(bytes == wav_bytes_of(bits) && bytes <= 4);
        assert(self.sample_rate as u64 * bytes <= 4 * 0xffff_ffff) by (nonlinear_arith)
            requires
                self.sample_rate <= 0xffff_ffff,
                bytes <= 4,
        ;
        let second: u64 = self.sample_rate as u64 * bytes;
        assert(second * self.channels as u64 <= u64::MAX) by (nonlinear_arith)
            requires
                second <= 4 * 0xffff_ffff,
                self.channels <= 0xffff,
        ;
        assert(self.samples.len() as u128 * bytes as u128 <= u128::MAX) by (nonlinear_arith)
            requires
                self.samples.len() <= u64::MAX,
                bytes <= 4,
        ;
        self.sample_rate > 0 && second * self.channels as u64 <= u32::MAX as u64
            && self.samples.len() as u128 * bytes as u128 <= MAX_WAV_DATA as u128
    }

    /// The track as a WAV file of integer samples: the file that a writer
    /// for its format leaves when all its samples are written in order.
    pub fn to_wav(&self) -> (r: Result<Vec<u8>, LilacError>)
        requires
            self@.fits_wav(),
        ensures
            match wav_encoded(
                self@.channels,
                self@.sample_rate,
                #[verifier::truncate]
                (self@.bit_depth as u16),
                self@.samples,
            ) {
                Some(bytes) => r matches Ok(file) && file@ == bytes,
                None => r matches Err(e) && e is Wav,
            },
    {
        let bits = #[verifier::truncate] (self.bit_depth as u16);
        let ghost all = self.samples@;
        let mut buffer = wav_buffer();
        let mut sink = match wav_writer(&mut buffer, self.channels, self.sample_rate, bits) {
            Ok(sink) => sink,
            Err(e) => {
                return Err(LilacError::Wav(e));
            },
        };
        let ghost begun = wav_sink_held(sink);
        assert(all.take(0) =~= Seq::<i32>::empty());
        let mut i: usize = 0;
        while i < self.samples.len()
            invariant
                i <= self.samples.len(),
                all == self.samples@,
                wav_can_count(all.len(), bits),
                begun.channels == self@.channels,
                begun.channels > 0,
                begun.sample_rate == self@.sample_rate,
                begun.bits_per_sample == bits,
                bits == self@.bit_depth as u16,
                wav_sink_held(sink) == (WavSinkHeld { written: all.take(i as int), ..begun }),
            decreases self.samples.len() - i,
        {
            let ghost held = wav_sink_held(sink);
            assert(wav_can_count((i + 1) as nat, bits)) by (nonlinear_arith)
                requires
                    i + 1 <= all.len(),
                    wav_can_count(all.len(), bits),
            ;
            match wav_write(&mut sink, self.samples[i]) {
                Ok(()) => {
                    assert(all.take(i + 1) =~= all.take(i as int).push(all[i as int]));
                },
                Err(e) => {
                    proof {
                        let rest = all.skip(i + 1);
                        assert(wav_with(held, all[i as int], rest) is None);
                        assert(held.written.push(all[i as int]) + rest =~= all);
                    }
                    return Err(LilacError::Wav(e));
                },
            }
            i = i + 1;
        }
        assert(all.take(i as int) =~= all);
        match wav_finish(sink) {
            Ok(()) => {},
            Err(e) => {
                return Err(LilacError::Wav(e));
            },
        }
        Ok(wav_bytes(buffer))
    }
}

} // verus!
