//! Tracks from Ogg Vorbis.

use crate::error::LilacError;
use crate::tags::{all_of, comments_view, first_number, first_of, values_of, Tags};
use crate::track::{packets_view, widen, widened, Lilac, LilacView};
use lewton::inside_ogg::OggStreamReader;
use std::io::Cursor;
use vstd::prelude::*;

verus! {

/// A `lewton::inside_ogg::OggStreamReader` over bytes in memory. Of its
/// value only what `ogg_held` names is known.
#[verifier::external_body]
pub struct OggStream {
    reader: OggStreamReader<Cursor<Vec<u8>>>,
}

/// Bytes of the header of an Ogg page, before the table of its segments.
pub const OGG_HEADER_LEN: usize = 27;

/// The mark `OggS` stands in `bytes` at `at`, with a whole page header and
/// the whole table of its segments after it. Every page that a reader
/// finds in the bytes begins at such a place.
pub open spec fn ogg_page_at(bytes: Seq<u8>, at: int) -> bool {
    &&& 0 <= at
    &&& at + OGG_HEADER_LEN <= bytes.len()
    &&& bytes[at] == 0x4F
    &&& bytes[at + 1] == 0x67
    &&& bytes[at + 2] == 0x67
    &&& bytes[at + 3] == 0x53
    &&& at + OGG_HEADER_LEN + bytes[at + 26] <= bytes.len()
}

/// The length of segment `k` in the table of the page at `at`.
pub open spec fn ogg_segment(bytes: Seq<u8>, at: int, k: int) -> u8 {
    bytes[at + OGG_HEADER_LEN + k]
}

/// A packet ends on the page at `at`: one of its segments is not full.
pub open spec fn ogg_packet_ends(bytes: Seq<u8>, at: int) -> bool {
    exists|k: int| 0 <= k < bytes[at + 26] && #[trigger] ogg_segment(bytes, at, k) < 255
}

/// The position of the page at `at`, a number of 64 bits with its lowest
/// byte first, is not negative when read with a sign.
pub open spec fn ogg_position_counts(bytes: Seq<u8>, at: int) -> bool {
    bytes[at + 13] < 0x80
}

/// Wherever a page on which a packet ends may begin in `bytes`, its
/// position is not negative. A reader adds the samples of the packets that
/// follow to such a position, in a number of 64 bits.
pub open spec fn ogg_positions_count(bytes: Seq<u8>) -> bool {
    forall|at: int|
        #[trigger] ogg_page_at(bytes, at) && ogg_packet_ends(bytes, at) ==> ogg_position_counts(
            bytes,
            at,
        )
}

/// Whether a packet ends on the page at `at`.
fn packet_ends(bytes: &[u8], at: usize) -> (ends: bool)
    requires
        ogg_page_at(bytes@, at as int),
    ensures
        ends == ogg_packet_ends(bytes@, at as int),
{
    let len = bytes.len();
    let segments: usize = bytes[at + 26] as usize;
    let mut k: usize = 0;
    while k < segments
        invariant
            k <= segments,
            len == bytes@.len(),
            segments == bytes@[at + 26],
            ogg_page_at(bytes@, at as int),
            forall|j: int| 0 <= j < k ==> #[trigger] ogg_segment(bytes@, at as int, j) == 255,
        decreases segments - k,
    {
        if bytes[at + OGG_HEADER_LEN + k] < 255 {
            assert(ogg_segment(bytes@, at as int, k as int) < 255);
            return true;
        }
        k = k + 1;
    }
    false
}

/// Whether the positions of the pages that may be found in `bytes` can be
/// counted from.
pub fn ogg_fits(bytes: &[u8]) -> (fits: bool)
    ensures
        fits == ogg_positions_count(bytes@),
{
    if bytes.len() < OGG_HEADER_LEN {
        return true;
    }
    let last: usize = bytes.len() - OGG_HEADER_LEN;
    let mut at: usize = 0;
    while at <= last
        invariant
            at <= last + 1,
            last + OGG_HEADER_LEN == bytes@.len(),
            forall|j: int|
                0 <= j < at && #[trigger] ogg_page_at(bytes@, j) && ogg_packet_ends(bytes@, j)
                    ==> ogg_position_counts(bytes@, j),
        decreases last + 1 - at,
    {
        if bytes[at] == 0x4F && bytes[at + 1] == 0x67 && bytes[at + 2] == 0x67 && bytes[at + 3]
            == 0x53 && bytes[at + 26] as usize <= last - at {
            if bytes[at + 13] >= 0x80 && packet_ends(bytes, at) {
                return false;
            }
        }
        at = at + 1;
    }
    true
}

/// What a reader holds: the bytes that it reads from, the comments of its
/// comment header as pairs of name and value, the packets of samples that
/// it has yet to give, and how the stream ends after them: with the
/// channels and the sample rate that the identification header then gives,
/// or with nothing where reading fails.
pub struct OggHeld {
    pub source: Seq<u8>,
    pub comments: Seq<(Seq<char>, Seq<char>)>,
    pub packets: Seq<Seq<i16>>,
    pub end: Option<(u8, u32)>,
}

/// What the reader holds at this moment.
pub uninterp spec fn ogg_held(stream: OggStream) -> OggHeld;

/// What a reader new on the bytes holds, where one can be made on them.
pub uninterp spec fn ogg_decoded(bytes: Seq<u8>) -> Option<OggHeld>;

/// What a reader gives when asked for a packet.
pub enum OggStep {
    /// The next packet of samples, interleaved by channel.
    Packet(Vec<i16>),
    /// The end of the stream, with the channels and the sample rate of the
    /// identification header.
    End(u8, u32),
}

/// Calls `lewton::inside_ogg::OggStreamReader::new` on the bytes. The
/// reader reads from the bytes; what it holds, and whether there is one, is
/// a function of the bytes alone.
#[verifier::external_body]
fn ogg_open(bytes: Vec<u8>) -> (r: Result<OggStream, lewton::VorbisError>)
    ensures
        match r {
            Ok(stream) => {
                &&& ogg_decoded(bytes@) == Some(ogg_held(stream))
                &&& ogg_held(stream).source == bytes@
            },
            Err(_) => ogg_decoded(bytes@) is None,
        },
{
    Ok(OggStream { reader: OggStreamReader::new(Cursor::new(bytes))? })
}

/// The comments of the reader's comment header, field `comment_list`, as
/// the reader holds them.
#[verifier::external_body]
fn ogg_comments(stream: &OggStream) -> (comments: Vec<(String, String)>)
    ensures
        comments_view(comments@) == ogg_held(*stream).comments,
{
    stream.reader.comment_hdr.comment_list.clone()
}

/// Calls `lewton::inside_ogg::OggStreamReader::read_dec_packet_itl`. A
/// packet is the first that the reader held, and the reader then holds the
/// rest, reads from the same bytes and ends as before. At the end of the
/// stream the reader held no packet, and the fields `audio_channels` and
/// `audio_sample_rate` of its identification header are given. An error
/// says that the reader held no packet and that the stream ends in
/// failure. The call adds the samples of the packet, in a number of 64
/// bits, to the position of the last page on which a packet ended.
#[verifier::external_body]
fn ogg_packet(stream: &mut OggStream) -> (r: Result<OggStep, lewton::VorbisError>)
    requires
        ogg_positions_count(ogg_held(*old(stream)).source),
    ensures
        match r {
            Ok(OggStep::Packet(packet)) => {
                &&& ogg_held(*final(stream)).source == ogg_held(*old(stream)).source
                &&& ogg_held(*old(stream)).packets.len() > 0
                &&& packet@ == ogg_held(*old(stream)).packets[0]
                &&& ogg_held(*final(stream)).packets == ogg_held(*old(stream)).packets.drop_first()
                &&& ogg_held(*final(stream)).end == ogg_held(*old(stream)).end
            },
            Ok(OggStep::End(channels, sample_rate)) => {
                &&& ogg_held(*old(stream)).packets.len() == 0
                &&& ogg_held(*old(stream)).end == Some((channels, sample_rate))
            },
            Err(_) => {
                &&& ogg_held(*old(stream)).packets.len() == 0
                &&& ogg_held(*old(stream)).end is None
            },
        },
{
    Ok(
        match stream.reader.read_dec_packet_itl()? {
            Some(packet) => OggStep::Packet(packet),
            None => OggStep::End(
                stream.reader.ident_hdr.audio_channels,
                stream.reader.ident_hdr.audio_sample_rate,
            ),
        },
    )
}

/// The track that an Ogg Vorbis stream holds, where it can be read to its
/// end: 16 bits, the samples of all packets, channels and sample rate as
/// the stream ends with; as title and album the first that the comments
/// name, as artist all that they name, and as track number the first that
/// they name and that is a number.
pub open spec fn ogg_track(bytes: Seq<u8>) -> Option<LilacView> {
    match ogg_decoded(bytes) {
        Some(held) => match held.end {
            Some((channels, sample_rate)) => Some(
                LilacView {
                    title: first_of(values_of(held.comments, "TITLE"@)),
                    artist: all_of(values_of(held.comments, "ARTIST"@)),
                    year: None,
                    album: first_of(values_of(held.comments, "ALBUM"@)),
                    track: first_number(values_of(held.comments, "TRACKNUMBER"@)),
                    channels: channels as u16,
                    sample_rate,
                    bit_depth: 16,
                    samples: widened(held.packets),
                },
            ),
            None => None,
        },
        None => None,
    }
}

impl Lilac {
    /// The track that an Ogg Vorbis stream holds, with the tags of its
    /// comments. The positions of its pages must be such as `ogg_fits`
    /// passes.
    pub fn from_ogg(bytes: Vec<u8>) -> (r: Result<Lilac, LilacError>)
        requires
            ogg_positions_count(bytes@),
        ensures
            match ogg_track(bytes@) {
                Some(track) => r matches Ok(l) && l@ == track,
                None => r matches Err(e) && e is Ogg,
            },
    {
        let mut reader = match ogg_open(bytes) {
            Ok(reader) => reader,
            Err(e) => {
                return Err(LilacError::Ogg(e));
            },
        };
        let ghost held = ogg_held(reader);
        let ghost all = held.packets;
        let comments = ogg_comments(&reader);
        let tags = Tags::from_comments(&comments);
        let mut packets: Vec<Vec<i16>> = Vec::new();
        let mut channels: u8 = 0;
        let mut sample_rate: u32 = 0;
        assert(all.skip(0) =~= all);
        assert(packets_view(packets@) =~= all.take(0));
        loop
            invariant_except_break
                ogg_held(reader).source == bytes@,
                ogg_held(reader).packets == all.skip(packets@.len() as int),
                ogg_held(reader).end == held.end,
            invariant
                ogg_positions_count(bytes@),
                ogg_decoded(bytes@) == Some(held),
                all == held.packets,
                packets@.len() <= all.len(),
                packets_view(packets@) == all.take(packets@.len() as int),
            ensures
                packets@.len() == all.len(),
                packets_view(packets@) == all.take(packets@.len() as int),
                held.end == Some((channels, sample_rate)),
            decreases all.len() - packets@.len(),
        {
            let ghost n = packets@.len() as int;
            let ghost before = packets_view(packets@);
            match ogg_packet(&mut reader) {
                Ok(OggStep::Packet(packet)) => {
                    proof {
                        assert(all.skip(n).len() > 0);
                        assert(all.skip(n)[0] == all[n]);
                        assert(all.skip(n).drop_first() =~= all.skip(n + 1));
                    }
                    packets.push(packet);
                    proof {
                        assert forall|i: int| 0 <= i < n + 1 implies packets_view(packets@)[i]
                            == all.take(n + 1)[i] by {
                            if i < n {
                                assert(before[i] == all.take(n)[i]);
                            }
                        }
                        assert(packets_view(packets@) =~= all.take(n + 1));
                    }
                },
                Ok(OggStep::End(c, rate)) => {
                    channels = c;
                    sample_rate = rate;
                    break ;
                },
                Err(e) => {
                    return Err(LilacError::Ogg(e));
                },
            }
        }
        assert(all.take(all.len() as int) =~= all);
        Ok(Lilac::tagged(tags, channels as u16, sample_rate, 16, widen(&packets)))
    }
}

} // verus!
