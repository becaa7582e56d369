//! Tracks from MP3.

use crate::error::LilacError;
use crate::track::{packets_view, widened, Lilac, LilacView};
use minimp3::Decoder;
use std::io::Cursor;
use vstd::prelude::*;

verus! {

/// `minimp3::Decoder`. Of its value only what `mp3_held` names is known.
#[verifier::external_type_specification]
#[verifier::external_body]
#[verifier::reject_recursive_types(R)]
pub struct ExDecoder<R>(Decoder<R>);

/// One decoded frame: its samples, interleaved by channel, and the sample
/// rate and number of channels that its header gives.
pub struct Mp3Frame {
    pub data: Vec<i16>,
    pub sample_rate: i32,
    pub channels: usize,
}

/// A frame as plain values.
pub struct Mp3FrameView {
    pub data: Seq<i16>,
    pub sample_rate: i32,
    pub channels: usize,
}

impl View for Mp3Frame {
    type V = Mp3FrameView;

    open spec fn view(&self) -> Mp3FrameView {
        Mp3FrameView { data: self.data@, sample_rate: self.sample_rate, channels: self.channels }
    }
}

/// What a decoder holds: the frames that it has yet to give, and whether
/// what follows the last of them is the end of its input rather than a
/// failure.
pub struct Mp3Held {
    pub frames: Seq<Mp3FrameView>,
    pub clean: bool,
}

/// What the header of a frame tells: the sample rate, the number of
/// channels, and how many samples the frame holds.
pub struct Mp3Shape {
    pub sample_rate: i32,
    pub channels: usize,
    pub samples: nat,
}

/// What the headers of the frames of a stream tell, frame by frame, and
/// whether the stream ends after them rather than fails.
pub struct Mp3Outline {
    pub shapes: Seq<Mp3Shape>,
    pub clean: bool,
}

/// What the decoder holds at this moment.
pub uninterp spec fn mp3_held(decoder: Decoder<Cursor<Vec<u8>>>) -> Mp3Held;

/// The outline of what a decoder new on the bytes holds. The samples
/// themselves are not named: the decoder computes them in the floating
/// point arithmetic that the machine offers.
pub uninterp spec fn mp3_decoded(bytes: Seq<u8>) -> Mp3Outline;

/// What the headers of the frames tell.
pub open spec fn shapes_of(frames: Seq<Mp3FrameView>) -> Seq<Mp3Shape> {
    Seq::new(
        frames.len(),
        |i: int|
            Mp3Shape {
                sample_rate: frames[i].sample_rate,
                channels: frames[i].channels,
                samples: frames[i].data.len(),
            },
    )
}

/// The outline of what a decoder holds.
pub open spec fn outline_of(held: Mp3Held) -> Mp3Outline {
    Mp3Outline { shapes: shapes_of(held.frames), clean: held.clean }
}

/// The samples that the frames hold together.
pub open spec fn samples_in(shapes: Seq<Mp3Shape>) -> nat
    decreases shapes.len(),
{
    if shapes.len() == 0 {
        0
    } else {
        samples_in(shapes.drop_last()) + shapes.last().samples
    }
}

/// What a decoder gives when asked for a frame.
pub enum Mp3Step {
    /// The next frame.
    Frame(Mp3Frame),
    /// No frame: the input is used up.
    End(minimp3::Error),
    /// No frame: the input could not be read.
    Failed(minimp3::Error),
}

/// Calls `minimp3::Decoder::new` on the bytes. The outline of what the
/// decoder holds is a function of the bytes alone.
#[verifier::external_body]
fn mp3_open(bytes: Vec<u8>) -> (decoder: Decoder<Cursor<Vec<u8>>>)
    ensures
        outline_of(mp3_held(decoder)) == mp3_decoded(bytes@),
{
    Decoder::new(Cursor::new(bytes))
}

/// Calls `minimp3::Decoder::next_frame`. A frame is the first that the
/// decoder held, and the decoder then holds the rest. The error
/// `minimp3::Error::Eof` says that the decoder held no frame and its input
/// is used up; another error, that it held no frame and reading failed.
#[verifier::external_body]
fn mp3_frame(decoder: &mut Decoder<Cursor<Vec<u8>>>) -> (step: Mp3Step)
    ensures
        match step {
            Mp3Step::Frame(frame) => {
                &&& mp3_held(*old(decoder)).frames.len() > 0
                &&& frame@ == mp3_held(*old(decoder)).frames[0]
                &&& mp3_held(*final(decoder)).frames == mp3_held(*old(decoder)).frames.drop_first()
                &&& mp3_held(*final(decoder)).clean == mp3_held(*old(decoder)).clean
            },
            Mp3Step::End(_) => {
                &&& mp3_held(*old(decoder)).frames.len() == 0
                &&& mp3_held(*old(decoder)).clean
            },
            Mp3Step::Failed(_) => {
                &&& mp3_held(*old(decoder)).frames.len() == 0
                &&& !mp3_held(*old(decoder)).clean
            },
        },
{
    match decoder.next_frame() {
        Ok(f) => Mp3Step::Frame(
            Mp3Frame { data: f.data, sample_rate: f.sample_rate, channels: f.channels },
        ),
        Err(minimp3::Error::Eof) => Mp3Step::End(minimp3::Error::Eof),
        Err(e) => Mp3Step::Failed(e),
    }
}

/// The samples of the frames, frame by frame.
pub open spec fn frame_data(frames: Seq<Mp3FrameView>) -> Seq<Seq<i16>> {
    Seq::new(frames.len(), |i: int| frames[i].data)
}

/// The samples of all the frames are as many as their headers tell.
pub proof fn frames_hold_what_headers_tell(frames: Seq<Mp3FrameView>)
    ensures
        widened(frame_data(frames)).len() == samples_in(shapes_of(frames)),
    decreases frames.len(),
{
    if frames.len() > 0 {
        assert(frame_data(frames).drop_last() =~= frame_data(frames.drop_last()));
        assert(shapes_of(frames).drop_last() =~= shapes_of(frames.drop_last()));
        frames_hold_what_headers_tell(frames.drop_last());
    }
}

/// A stream holds a track where it holds a frame and can be read to its
/// end.
pub open spec fn mp3_holds_track(bytes: Seq<u8>) -> bool {
    mp3_decoded(bytes).shapes.len() > 0 && mp3_decoded(bytes).clean
}

/// `track` is a track that the stream holds: 16 bits, without tags, the
/// channels and the sample rate those of the first frame, and as many
/// samples as the headers of all frames tell.
pub open spec fn mp3_track(bytes: Seq<u8>, track: LilacView) -> bool {
    &&& track.title is None
    &&& track.artist is None
    &&& track.year is None
    &&& track.album is None
    &&& track.track is None
    &&& track.channels == mp3_decoded(bytes).shapes[0].channels as u16
    &&& track.sample_rate == mp3_decoded(bytes).shapes[0].sample_rate as u32
    &&& track.bit_depth == 16
    &&& track.samples.len() == samples_in(mp3_decoded(bytes).shapes)
}

impl Lilac {
    /// The track that an MP3 stream holds, its samples those that the
    /// decoder gives for the frames, in order. A stream without a frame is
    /// an error.
    pub fn from_mp3(bytes: Vec<u8>) -> (r: Result<Lilac, LilacError>)
        ensures
            if mp3_holds_track(bytes@) {
                r matches Ok(l) && mp3_track(bytes@, l@)
            } else {
                r matches Err(e) && e is Mp3
            },
    {
        let mut reader = mp3_open(bytes);
        let ghost held = mp3_held(reader);
        let ghost all = held.frames;
        assert(shapes_of(all).len() == all.len());
        let first = match mp3_frame(&mut reader) {
            Mp3Step::Frame(frame) => frame,
            Mp3Step::End(e) => {
                return Err(LilacError::Mp3(e));
            },
            Mp3Step::Failed(e) => {
                return Err(LilacError::Mp3(e));
            },
        };
        let channels = #[verifier::truncate] (first.channels as u16);
        let sample_rate = #[verifier::truncate] (first.sample_rate as u32);
        let mut frames: Vec<Vec<i16>> = Vec::new();
        frames.push(first.data);
        assert(packets_view(frames@) =~= frame_data(all.take(1)));
        assert(all.drop_first() =~= all.skip(1));
        loop
            invariant_except_break
                mp3_held(reader).frames == all.skip(frames@.len() as int),
                mp3_held(reader).clean == held.clean,
            invariant
                1 <= frames@.len() <= all.len(),
                packets_view(frames@) == frame_data(all.take(frames@.len() as int)),
                outline_of(held) == mp3_decoded(bytes@),
                all == held.frames,
                channels == all[0].channels as u16,
                sample_rate == all[0].sample_rate as u32,
            ensures
                frames@.len() == all.len(),
                held.clean,
                packets_view(frames@) == frame_data(all.take(frames@.len() as int)),
                outline_of(held) == mp3_decoded(bytes@),
                all == held.frames,
                all.len() > 0,
                channels == all[0].channels as u16,
                sample_rate == all[0].sample_rate as u32,
            decreases all.len() - frames@.len(),
        {
            let ghost n = frames@.len() as int;
            let ghost before = packets_view(frames@);
            match mp3_frame(&mut reader) {
                Mp3Step::Frame(frame) => {
                    proof {
                        assert(all.skip(n).len() > 0);
                        assert(all.skip(n)[0] == all[n]);
                        assert(frame.data@ == all[n].data);
                        assert(all.skip(n).drop_first() =~= all.skip(n + 1));
                    }
                    frames.push(frame.data);
                    proof {
                        assert forall|i: int| 0 <= i < n + 1 implies packets_view(frames@)[i]
                            == frame_data(all.take(n + 1))[i] by {
                            if i < n {
                                assert(before[i] == frame_data(all.take(n))[i]);
                            }
                        }
                        assert(packets_view(frames@) =~= frame_data(all.take(n + 1)));
                    }
                },
                Mp3Step::End(_) => {
                    break ;
                },
                Mp3Step::Failed(e) => {
                    return Err(LilacError::Mp3(e));
                },
            }
        }
        proof {
            assert(all.take(all.len() as int) =~= all);
            frames_hold_what_headers_tell(all);
        }
        Ok(Lilac::from_pcm16(channels, sample_rate, &frames))
    }
}

} // verus!
