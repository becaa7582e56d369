use lilac::ogg::ogg_fits;
use lilac::track::Lilac;
use lilac::transcode::{decode, detect, Format};

/// Bits packed into bytes from the lowest bit up, as Vorbis headers are.
struct Bits {
    bytes: Vec<u8>,
    used: u32,
}

impl Bits {
    fn after(bytes: Vec<u8>) -> Bits {
        Bits { bytes, used: 0 }
    }

    fn put(&mut self, value: u64, count: u32) {
        for i in 0..count {
            if self.used == 0 {
                self.bytes.push(0);
            }
            if (value >> i) & 1 == 1 {
                *self.bytes.last_mut().unwrap() |= 1 << self.used;
            }
            self.used = (self.used + 1) % 8;
        }
    }
}

fn checksum(page: &[u8]) -> u32 {
    let mut crc: u32 = 0;
    for byte in page {
        crc ^= (*byte as u32) << 24;
        for _ in 0..8 {
            crc = if crc & 0x8000_0000 != 0 { (crc << 1) ^ 0x04C1_1DB7 } else { crc << 1 };
        }
    }
    crc
}

fn page(kind: u8, position: u64, number: u32, packets: &[Vec<u8>]) -> Vec<u8> {
    let mut table = Vec::new();
    let mut data = Vec::new();
    for p in packets {
        let mut left = p.len();
        while left >= 255 {
            table.push(255u8);
            left -= 255;
        }
        table.push(left as u8);
        data.extend_from_slice(p);
    }
    let mut out = b"OggS".to_vec();
    out.push(0);
    out.push(kind);
    out.extend_from_slice(&position.to_le_bytes());
    out.extend_from_slice(&0x1234_5678u32.to_le_bytes());
    out.extend_from_slice(&number.to_le_bytes());
    out.extend_from_slice(&[0, 0, 0, 0]);
    out.push(table.len() as u8);
    out.extend_from_slice(&table);
    out.extend_from_slice(&data);
    let crc = checksum(&out);
    out[22..26].copy_from_slice(&crc.to_le_bytes());
    out
}

fn identification(channels: u8, sample_rate: u32) -> Vec<u8> {
    let mut p = b"\x01vorbis".to_vec();
    p.extend_from_slice(&0u32.to_le_bytes());
    p.push(channels);
    p.extend_from_slice(&sample_rate.to_le_bytes());
    p.extend_from_slice(&[0; 12]);
    p.push(0x66); // both block sizes 64
    p.push(1);
    p
}

fn comment(comments: &[&str]) -> Vec<u8> {
    let mut p = b"\x03vorbis".to_vec();
    p.extend_from_slice(&4u32.to_le_bytes());
    p.extend_from_slice(b"test");
    p.extend_from_slice(&(comments.len() as u32).to_le_bytes());
    for c in comments {
        p.extend_from_slice(&(c.len() as u32).to_le_bytes());
        p.extend_from_slice(c.as_bytes());
    }
    p.push(1);
    p
}

/// The smallest setup: one codebook of two codes, one floor without
/// partitions, one residue without books, one mapping, one mode of short
/// blocks.
fn setup() -> Vec<u8> {
    let mut b = Bits::after(b"\x05vorbis".to_vec());
    b.put(0, 8); // one codebook
    b.put(0x564342, 24);
    b.put(1, 16); // dimensions
    b.put(2, 24); // entries
    b.put(0, 1); // not ordered
    b.put(0, 1); // not sparse
    b.put(0, 5); // length 1
    b.put(0, 5); // length 1
    b.put(0, 4); // no lookup
    b.put(0, 6); // one time transform
    b.put(0, 16);
    b.put(0, 6); // one floor
    b.put(1, 16); // of type 1
    b.put(0, 5); // no partitions
    b.put(0, 2); // multiplier 1
    b.put(4, 4); // range bits
    b.put(0, 6); // one residue
    b.put(0, 16); // of type 0
    b.put(0, 24); // begin
    b.put(0, 24); // end
    b.put(0, 24); // partition size 1
    b.put(0, 6); // one classification
    b.put(0, 8); // class book
    b.put(0, 3); // cascade
    b.put(0, 1);
    b.put(0, 6); // one mapping
    b.put(0, 16); // of type 0
    b.put(0, 1); // one submap
    b.put(0, 1); // no coupling
    b.put(0, 2); // reserved
    b.put(0, 8); // time
    b.put(0, 8); // floor
    b.put(0, 8); // residue
    b.put(0, 6); // one mode
    b.put(0, 1); // short blocks
    b.put(0, 16); // window
    b.put(0, 16); // transform
    b.put(0, 8); // mapping
    b.put(1, 1); // framing
    b.bytes
}

/// An Ogg Vorbis stream of `packets` packets of silence.
fn ogg_stream(channels: u8, sample_rate: u32, comments: &[&str], packets: usize) -> Vec<u8> {
    let mut out = page(0x02, 0, 0, &[identification(channels, sample_rate)]);
    out.extend(page(0x00, 0, 1, &[comment(comments), setup()]));
    let silence: Vec<Vec<u8>> = (0..packets).map(|_| vec![0u8]).collect();
    out.extend(page(0x04, 32 * (packets as u64).saturating_sub(1), 2, &silence));
    out
}

/// An MP3 stream of `frames` frames of silence: MPEG 1 layer 3 at 128
/// kbit/s and 44100 Hz on one channel, 417 bytes a frame.
fn mp3_stream(frames: usize) -> Vec<u8> {
    let mut out = Vec::new();
    for _ in 0..frames {
        out.extend_from_slice(&[0xFF, 0xFB, 0x90, 0xC0]);
        out.extend_from_slice(&[0u8; 413]);
    }
    out
}

fn crc8(bytes: &[u8]) -> u8 {
    let mut crc: u8 = 0;
    for byte in bytes {
        crc ^= *byte;
        for _ in 0..8 {
            crc = if crc & 0x80 != 0 { (crc << 1) ^ 0x07 } else { crc << 1 };
        }
    }
    crc
}

fn crc16(bytes: &[u8]) -> u16 {
    let mut crc: u16 = 0;
    for byte in bytes {
        crc ^= (*byte as u16) << 8;
        for _ in 0..8 {
            crc = if crc & 0x8000 != 0 { (crc << 1) ^ 0x8005 } else { crc << 1 };
        }
    }
    crc
}

/// A FLAC stream of 16 bits at 44100 Hz on one channel: one frame for each
/// value, of 192 samples that all have that value.
fn flac_stream(values: &[i16]) -> Vec<u8> {
    let mut out = b"fLaC".to_vec();
    out.extend_from_slice(&[0x80, 0x00, 0x00, 34]); // stream info, the last block
    out.extend_from_slice(&[0x00, 0xC0, 0x00, 0xC0]); // blocks of 192 samples
    out.extend_from_slice(&[0, 0, 0, 0, 0, 0]);
    out.extend_from_slice(&[0x0A, 0xC4, 0x40, 0xF0, 0, 0, 0, 0]);
    out.extend_from_slice(&[0; 16]);
    for (number, value) in values.iter().enumerate() {
        // fixed blocks of 192 samples at 44100 Hz, one channel, 16 bits
        let mut frame = vec![0xFF, 0xF8, 0x19, 0x08, number as u8];
        frame.push(crc8(&frame));
        frame.push(0x00); // a constant subframe
        frame.extend_from_slice(&value.to_be_bytes());
        let crc = crc16(&frame);
        frame.extend_from_slice(&crc.to_be_bytes());
        out.extend(frame);
    }
    out
}

#[test]
fn flac_stream_of_constant_frames() {
    let bytes = flac_stream(&[5, -7]);
    assert_eq!(detect(&bytes), Some(Format::Flac));
    let l = Lilac::from_flac(bytes).expect("a track");
    let mut samples = vec![5; 192];
    samples.extend(vec![-7; 192]);
    assert_eq!(l, Lilac::new(1, 44100, 16, samples));
}

#[test]
fn flac_stream_with_a_broken_frame_is_an_error() {
    let mut bytes = flac_stream(&[5, -7]);
    let len = bytes.len();
    bytes[len - 1] ^= 0x55;
    assert!(matches!(Lilac::from_flac(bytes), Err(lilac::error::LilacError::Flac(_))));
}

#[test]
fn ogg_stream_of_silence() {
    let bytes = ogg_stream(
        2,
        48000,
        &["TITLE=Quiet", "artist=Nobody", "ARTIST=No one", "tracknumber=x", "TRACKNUMBER=3"],
        3,
    );
    assert_eq!(detect(&bytes), Some(Format::Ogg));
    let l = Lilac::from_ogg(bytes).expect("a track");
    assert_eq!(l.title, Some("Quiet".to_string()));
    assert_eq!(l.artist, Some("Nobody, No one".to_string()));
    assert_eq!(l.album, None);
    assert_eq!(l.track, Some(3));
    assert_eq!(l.year, None);
    assert_eq!(l.channels, 2);
    assert_eq!(l.sample_rate, 48000);
    assert_eq!(l.bit_depth, 16);
    // the first packet primes the decoder; each later one gives half a
    // block of 64 samples on either channel
    assert_eq!(l.samples(), &vec![0; 2 * 32 * 2]);
}

#[test]
fn ogg_stream_without_audio() {
    let l = Lilac::from_ogg(ogg_stream(1, 8000, &[], 0)).expect("a track");
    assert_eq!(l, Lilac::new(1, 8000, 16, vec![]));
}

#[test]
fn ogg_stream_cut_short_is_an_error() {
    let mut bytes = ogg_stream(1, 8000, &[], 2);
    let len = bytes.len();
    bytes[len - 1] ^= 0xFF;
    assert!(matches!(Lilac::from_ogg(bytes), Err(lilac::error::LilacError::Ogg(_))));
    let mut headless = ogg_stream(1, 8000, &[], 2);
    headless.truncate(40);
    assert!(matches!(Lilac::from_ogg(headless), Err(lilac::error::LilacError::Ogg(_))));
}

#[test]
fn mp3_stream_of_silence() {
    let bytes = mp3_stream(4);
    assert_eq!(detect(&bytes), Some(Format::Mp3));
    let l = Lilac::from_mp3(bytes).expect("a track");
    assert_eq!(l.channels, 1);
    assert_eq!(l.sample_rate, 44100);
    assert_eq!(l.bit_depth, 16);
    assert_eq!(l.title, None);
    assert_eq!(l.samples(), &vec![0; 4 * 1152]);
}

#[test]
fn decode_reads_each_format() {
    let wav = Lilac::new(1, 8000, 16, vec![1, -1]).to_wav().expect("a wav file");
    assert_eq!(decode(Format::Wav, wav).expect("a track"), Lilac::new(1, 8000, 16, vec![1, -1]));
    assert_eq!(decode(Format::Mp3, mp3_stream(2)).expect("a track").samples().len(), 2 * 1152);
    assert_eq!(decode(Format::Ogg, ogg_stream(1, 8000, &[], 2)).expect("a track").channels, 1);
    assert_eq!(decode(Format::Flac, flac_stream(&[9])).expect("a track").samples(), &vec![9; 192]);
}

#[test]
fn ogg_fits_passes_what_holds_no_page() {
    assert!(ogg_fits(b""));
    assert!(ogg_fits(b"OggS"));
    assert!(ogg_fits(&[0xFF; 100]));
    assert!(ogg_fits(&mp3_stream(2)));
    // a header cut short is no page
    let mut cut = page(0x00, u64::MAX - 1, 0, &[vec![1, 2, 3]]);
    cut.truncate(26);
    assert!(ogg_fits(&cut));
    // nor is one whose table of segments is cut short
    let mut cut = page(0x00, u64::MAX - 1, 0, &[vec![1], vec![2], vec![3]]);
    cut.truncate(29);
    assert!(ogg_fits(&cut));
}

#[test]
fn ogg_fits_passes_positions_that_are_not_negative() {
    assert!(ogg_fits(&ogg_stream(2, 48000, &["TITLE=x"], 3)));
    assert!(ogg_fits(&page(0x00, 0, 0, &[vec![1, 2, 3]])));
    assert!(ogg_fits(&page(0x00, i64::MAX as u64, 0, &[vec![1, 2, 3]])));
}

#[test]
fn ogg_fits_refuses_a_negative_position_where_a_packet_ends() {
    assert!(!ogg_fits(&page(0x00, 1 << 63, 0, &[vec![1, 2, 3]])));
    assert!(!ogg_fits(&page(0x00, u64::MAX, 0, &[vec![1, 2, 3]])));
    assert!(!ogg_fits(&page(0x00, u64::MAX - 4096, 0, &[vec![], vec![0]])));
    // wherever the page stands
    let mut bytes = ogg_stream(1, 8000, &[], 2);
    bytes.extend(b"xx");
    bytes.extend(page(0x00, u64::MAX - 7, 3, &[vec![0; 300]]));
    bytes.extend(b"tail");
    assert!(!ogg_fits(&bytes));
}

#[test]
fn ogg_fits_passes_a_page_on_which_no_packet_ends() {
    // all segments full: the packet goes on in the next page, and the
    // position of the page says nothing
    let mut unfinished = page(0x00, u64::MAX, 0, &[vec![7; 255]]);
    assert_eq!(unfinished[26], 2);
    unfinished[26] = 1;
    unfinished.remove(28);
    assert!(ogg_fits(&unfinished));
    let mut empty = page(0x00, u64::MAX, 0, &[]);
    assert_eq!(empty[26], 0);
    empty.extend(b"rest");
    assert!(ogg_fits(&empty));
}
