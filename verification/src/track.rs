//! A decoded audio track: tags, sample format and interleaved samples.

use vstd::prelude::*;

verus! {

/// A decoded track. Samples are signed integers of `bit_depth` bits,
/// interleaved by channel.
#[derive(Debug, Clone, PartialEq, Eq, Hash)]
pub struct Lilac {
    pub title: Option<String>,
    pub artist: Option<String>,
    pub year: Option<i32>,
    pub album: Option<String>,
    pub track: Option<u32>,
    pub channels: u16,
    pub sample_rate: u32,
    pub bit_depth: u32,
    pub samples: Vec<i32>,
}

/// What a track is, as plain mathematical values.
pub struct LilacView {
    pub title: Option<Seq<char>>,
    pub artist: Option<Seq<char>>,
    pub year: Option<i32>,
    pub album: Option<Seq<char>>,
    pub track: Option<u32>,
    pub channels: u16,
    pub sample_rate: u32,
    pub bit_depth: u32,
    pub samples: Seq<i32>,
}

/// The text of an optional tag.
pub open spec fn tag_text(tag: Option<String>) -> Option<Seq<char>> {
    match tag {
        Some(s) => Some(s@),
        None => None,
    }
}

/// What is shown for a tag: its text, or "Unknown" where the tag is absent.
pub open spec fn shown(tag: Option<Seq<char>>) -> Seq<char> {
    match tag {
        Some(s) => s,
        None => "Unknown"@,
    }
}

/// Milliseconds of audio in `samples` interleaved samples. The rate counts
/// in whole kilohertz, so 44100 Hz plays as 44 samples per millisecond.
pub open spec fn millis_of(samples: nat, channels: u16, sample_rate: u32) -> nat
    recommends
        channels > 0,
        sample_rate >= 1000,
{
    (samples / (channels as nat)) / ((sample_rate / 1000) as nat)
}

/// The magnitude of the most negative sample of `bit_depth` bits.
pub open spec fn floor_magnitude(bit_depth: u32) -> nat
    recommends
        1 <= bit_depth <= 32,
{
    vstd::arithmetic::power2::pow2((bit_depth - 1) as nat)
}

/// The samples of a run of packets of 16-bit samples, in order, each as a
/// sample of 32 bits.
pub open spec fn widened(packets: Seq<Seq<i16>>) -> Seq<i32>
    decreases packets.len(),
{
    if packets.len() == 0 {
        Seq::empty()
    } else {
        widened(packets.drop_last()) + Seq::new(
            packets.last().len(),
            |i: int| packets.last()[i] as i32,
        )
    }
}

/// The packets as plain values.
pub open spec fn packets_view(packets: Seq<Vec<i16>>) -> Seq<Seq<i16>> {
    Seq::new(packets.len(), |i: int| packets[i]@)
}

/// The samples of `packets`, in order, each as a sample of 32 bits.
pub fn widen(packets: &Vec<Vec<i16>>) -> (samples: Vec<i32>)
    ensures
        samples@ == widened(packets_view(packets@)),
{
    let ghost all = packets_view(packets@);
    let mut samples: Vec<i32> = Vec::new();
    let mut p: usize = 0;
    while p < packets.len()
        invariant
            p <= packets.len(),
            all == packets_view(packets@),
            samples@ == widened(all.take(p as int)),
        decreases packets.len() - p,
    {
        let packet = &packets[p];
        let ghost before = samples@;
        let mut i: usize = 0;
        while i < packet.len()
            invariant
                i <= packet.len(),
                samples@ == before + Seq::new(i as nat, |k: int| packet@[k] as i32),
            decreases packet.len() - i,
        {
            samples.push(packet[i] as i32);
            i = i + 1;
            assert(samples@ =~= before + Seq::new(i as nat, |k: int| packet@[k] as i32));
        }
        proof {
            assert(all.take(p + 1).drop_last() =~= all.take(p as int));
            assert(all.take(p + 1).last() == packet@);
        }
        p = p + 1;
    }
    assert(all.take(p as int) =~= all);
    samples
}

impl View for Lilac {
    type V = LilacView;

    open spec fn view(&self) -> LilacView {
        LilacView {
            title: tag_text(self.title),
            artist: tag_text(self.artist),
            year: self.year,
            album: tag_text(self.album),
            track: self.track,
            channels: self.channels,
            sample_rate: self.sample_rate,
            bit_depth: self.bit_depth,
            samples: self.samples@,
        }
    }
}

impl LilacView {
    /// The length of the track can be told: it has a channel, and a sample
    /// per millisecond at least.
    pub open spec fn timed(self) -> bool {
        &&& self.channels > 0
        &&& self.sample_rate >= 1000
    }

    /// The samples have a range: a bit depth that a 32-bit sample can hold.
    pub open spec fn ranged(self) -> bool {
        1 <= self.bit_depth <= 32
    }

    /// A stream can be made of the track: its length can be told and its
    /// samples have a range.
    pub open spec fn playable(self) -> bool {
        &&& self.timed()
        &&& self.ranged()
    }

    /// Length of the track in milliseconds.
    pub open spec fn millis(self) -> nat {
        millis_of(self.samples.len(), self.channels, self.sample_rate)
    }
}

impl Lilac {
    /// A track without tags.
    pub fn new(channels: u16, sample_rate: u32, bit_depth: u32, samples: Vec<i32>) -> (l: Lilac)
        ensures
            l@ == (LilacView {
                title: None,
                artist: None,
                year: None,
                album: None,
                track: None,
                channels,
                sample_rate,
                bit_depth,
                samples: samples@,
            }),
    {
        Lilac {
            title: None,
            artist: None,
            year: None,
            album: None,
            track: None,
            channels,
            sample_rate,
            bit_depth,
            samples,
        }
    }

    /// A track of 16 bits without tags, its samples those of `packets` in
    /// order.
    pub fn from_pcm16(channels: u16, sample_rate: u32, packets: &Vec<Vec<i16>>) -> (l: Lilac)
        ensures
            l@ == (LilacView {
                title: None,
                artist: None,
                year: None,
                album: None,
                track: None,
                channels,
                sample_rate,
                bit_depth: 16,
                samples: widened(packets_view(packets@)),
            }),
    {
        Lilac::new(channels, sample_rate, 16, widen(packets))
    }

    /// The samples, interleaved by channel.
    pub fn samples(&self) -> (s: &Vec<i32>)
        ensures
            s@ == self@.samples,
    {
        &self.samples
    }

    /// The title, or "Unknown" where the track has none.
    pub fn title(&self) -> (r: &str)
        ensures
            r@ == shown(self@.title),
    {
        match &self.title {
            Some(t) => t.as_str(),
            None => "Unknown",
        }
    }

    /// The artist, or "Unknown" where the track has none.
    pub fn artist(&self) -> (r: &str)
        ensures
            r@ == shown(self@.artist),
    {
        match &self.artist {
            Some(t) => t.as_str(),
            None => "Unknown",
        }
    }

    /// The album, or "Unknown" where the track has none.
    pub fn album(&self) -> (r: &str)
        ensures
            r@ == shown(self@.album),
    {
        match &self.album {
            Some(t) => t.as_str(),
            None => "Unknown",
        }
    }

    /// Whether a stream can be made of the track.
    pub fn playable(&self) -> (b: bool)
        ensures
            b == self@.playable(),
    {
        self.channels > 0 && self.sample_rate >= 1000 && 1 <= self.bit_depth && self.bit_depth <= 32
    }

    /// The magnitudes that a stream divides samples by to bring them into
    /// the range from -1 to 1: first that of the most negative sample, for
    /// samples below zero, then that of the most positive one, for samples
    /// above.
    pub fn scales(&self) -> (range: (u32, u32))
        requires
            self@.ranged(),
        ensures
            range.0 == floor_magnitude(self@.bit_depth),
            range.1 == floor_magnitude(self@.bit_depth) - 1,
    {
        let shift: u32 = self.bit_depth - 1;
        proof {
            vstd::bits::lemma_u32_pow2_no_overflow(shift as nat);
            vstd::bits::lemma_u32_shl_is_mul(1u32, shift);
        }
        let floor: u32 = 1u32 << shift;
        (floor, floor - 1)
    }

    /// Length of the track's stream in milliseconds.
    pub fn duration_millis(&self) -> (ms: u64)
        requires
            self@.timed(),
        ensures
            ms as nat == self@.millis(),
    {
        let frames: u64 = self.samples.len() as u64 / self.channels as u64;
        frames / (self.sample_rate / 1000) as u64
    }
}

} // verus!
