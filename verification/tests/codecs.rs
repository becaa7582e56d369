use lilac::error::LilacError;
use lilac::track::Lilac;

fn flac_stream(comments: &[&str]) -> Vec<u8> {
    let mut bytes = b"fLaC".to_vec();
    // stream info: not the last block, 34 bytes
    bytes.extend_from_slice(&[0x00, 0x00, 0x00, 34]);
    bytes.extend_from_slice(&[0x10, 0x00, 0x10, 0x00]); // block sizes of 4096
    bytes.extend_from_slice(&[0, 0, 0, 0, 0, 0]); // frame sizes unknown
    // 44100 Hz, 2 channels, 16 bits, no sample count
    bytes.extend_from_slice(&[0x0A, 0xC4, 0x42, 0xF0, 0, 0, 0, 0]);
    bytes.extend_from_slice(&[0; 16]);
    // comments: the last block
    let mut block = Vec::new();
    block.extend_from_slice(&4u32.to_le_bytes());
    block.extend_from_slice(b"test");
    block.extend_from_slice(&(comments.len() as u32).to_le_bytes());
    for c in comments {
        block.extend_from_slice(&(c.len() as u32).to_le_bytes());
        block.extend_from_slice(c.as_bytes());
    }
    bytes.push(0x84);
    bytes.extend_from_slice(&(block.len() as u32).to_be_bytes()[1..]);
    bytes.extend_from_slice(&block);
    bytes
}

#[test]
fn wav_round_trip() {
    let l = Lilac::new(2, 44100, 16, vec![0, 1, -1, 32767, -32768, 12]);
    let bytes = l.to_wav().expect("a wav file");
    assert_eq!(&bytes[0..4], b"RIFF");
    assert_eq!(&bytes[8..12], b"WAVE");
    let back = Lilac::from_wav(bytes).expect("a track");
    assert_eq!(back, l);
}

#[test]
fn wav_round_trip_of_24_bits_on_one_channel() {
    let l = Lilac::new(1, 8000, 24, vec![8_388_607, -8_388_608, 0]);
    let back = Lilac::from_wav(l.to_wav().expect("a wav file")).expect("a track");
    assert_eq!(back, l);
}

#[test]
fn to_wav_is_the_file_that_the_writer_leaves() {
    let samples = vec![0, 1, -1, 32767, -32768, 12, 7, -7];
    let mut buffer = std::io::Cursor::new(Vec::new());
    {
        let spec = hound::WavSpec {
            channels: 2,
            sample_rate: 22050,
            bits_per_sample: 16,
            sample_format: hound::SampleFormat::Int,
        };
        let mut writer = hound::WavWriter::new(&mut buffer, spec).expect("a writer");
        for s in &samples {
            writer.write_sample(*s).expect("a sample written");
        }
        writer.finalize().expect("a file");
    }
    let file = Lilac::new(2, 22050, 16, samples).to_wav().expect("a wav file");
    assert_eq!(file, buffer.into_inner());
    // 44 bytes of header, then two bytes a sample
    assert_eq!(file.len(), 44 + 8 * 2);
    assert_eq!(&file[40..44], &16u32.to_le_bytes());
    assert_eq!(&file[44..48], &[0, 0, 1, 0]);
}

#[test]
fn to_wav_of_no_samples_is_a_header() {
    let file = Lilac::new(1, 8000, 8, vec![]).to_wav().expect("a wav file");
    assert_eq!(file.len(), 44);
    assert_eq!(&file[0..4], b"RIFF");
    assert_eq!(&file[4..8], &36u32.to_le_bytes());
    assert_eq!(&file[40..44], &0u32.to_le_bytes());
}

#[test]
fn to_wav_refuses_half_a_frame() {
    let l = Lilac::new(2, 44100, 16, vec![1, 2, 3]);
    assert!(matches!(l.to_wav(), Err(LilacError::Wav(_))));
}

#[test]
fn wav_drops_tags() {
    let mut l = Lilac::new(1, 8000, 8, vec![1, 2, 3]);
    l.title = Some("kept in the track only".to_string());
    l.year = Some(1959);
    let back = Lilac::from_wav(l.to_wav().expect("a wav file")).expect("a track");
    assert_eq!(back, Lilac::new(1, 8000, 8, vec![1, 2, 3]));
}

#[test]
fn to_wav_refuses_a_depth_that_wav_lacks() {
    let l = Lilac::new(2, 44100, 12, vec![0, 0]);
    assert!(matches!(l.to_wav(), Err(LilacError::Wav(_))));
}

#[test]
fn to_wav_refuses_a_sample_too_wide_for_the_depth() {
    let l = Lilac::new(1, 44100, 8, vec![1000]);
    assert!(matches!(l.to_wav(), Err(LilacError::Wav(_))));
}

#[test]
fn fits_wav_wants_a_format_that_a_header_can_tell() {
    assert!(Lilac::new(2, 44100, 16, vec![0; 10]).fits_wav());
    assert!(!Lilac::new(0, 44100, 16, vec![]).fits_wav());
    assert!(!Lilac::new(2, 0, 16, vec![]).fits_wav());
    // the bytes of a second are a number of 32 bits
    assert!(Lilac::new(65535, 32768, 16, vec![]).fits_wav());
    assert!(!Lilac::new(65535, 32769, 16, vec![]).fits_wav());
    assert!(Lilac::new(65535, 16384, 32, vec![]).fits_wav());
    assert!(!Lilac::new(65535, 16385, 32, vec![]).fits_wav());
    assert!(Lilac::new(1, 2147483647, 16, vec![]).fits_wav());
    assert!(!Lilac::new(1, 2147483648, 16, vec![]).fits_wav());
    assert!(Lilac::new(1, 4294967295, 8, vec![]).fits_wav());
}

#[test]
fn fits_wav_lets_a_depth_pass_that_the_writer_refuses() {
    assert!(Lilac::new(1, 1, 12, vec![]).fits_wav());
    assert!(Lilac::new(7, 0, 12, vec![1, 2, 3]).fits_wav());
    assert!(Lilac::new(1, 0, 1, vec![]).fits_wav());
    assert!(Lilac::new(2, 44100, 65528, vec![]).fits_wav());
    assert!(matches!(Lilac::new(7, 0, 12, vec![1]).to_wav(), Err(LilacError::Wav(_))));
    assert!(matches!(Lilac::new(1, 0, 1, vec![]).to_wav(), Err(LilacError::Wav(_))));
    assert!(matches!(Lilac::new(2, 44100, 65528, vec![]).to_wav(), Err(LilacError::Wav(_))));
}

#[test]
fn fits_wav_wants_a_channel_and_a_bit_whatever_the_depth() {
    assert!(!Lilac::new(0, 44100, 12, vec![]).fits_wav());
    assert!(!Lilac::new(0, 0, 65528, vec![]).fits_wav());
    assert!(!Lilac::new(2, 44100, 0, vec![]).fits_wav());
}

#[test]
fn fits_wav_refuses_a_depth_that_cannot_be_rounded_up() {
    assert!(!Lilac::new(2, 44100, 65529, vec![]).fits_wav());
    assert!(!Lilac::new(2, 44100, 65535, vec![]).fits_wav());
    // 65552 is 16 in 16 bits, and is not taken for it
    assert!(!Lilac::new(2, 44100, 65552, vec![]).fits_wav());
    assert!(!Lilac::new(2, 44100, u32::MAX, vec![]).fits_wav());
}

#[test]
fn from_wav_refuses_what_is_no_wav() {
    assert!(matches!(Lilac::from_wav(Vec::new()), Err(LilacError::Wav(_))));
    assert!(matches!(Lilac::from_wav(b"RIFF....WAVE".to_vec()), Err(LilacError::Wav(_))));
}

#[test]
fn from_wav_refuses_a_file_cut_short() {
    let l = Lilac::new(1, 8000, 16, vec![1, 2, 3, 4]);
    let mut bytes = l.to_wav().expect("a wav file");
    bytes.truncate(bytes.len() - 3);
    assert!(matches!(Lilac::from_wav(bytes), Err(LilacError::Wav(_))));
}

#[test]
fn flac_header_and_tags() {
    let bytes = flac_stream(&[
        "title=Moanin'",
        "ARTIST=Art Blakey",
        "artist=The Jazz Messengers",
        "Album=Moanin'",
        "TRACKNUMBER=1",
        "TITLE=again",
    ]);
    let l = Lilac::from_flac(bytes).expect("a track");
    assert_eq!(l.title, Some("Moanin'".to_string()));
    assert_eq!(l.artist, Some("Art Blakey, The Jazz Messengers".to_string()));
    assert_eq!(l.album, Some("Moanin'".to_string()));
    assert_eq!(l.track, Some(1));
    assert_eq!(l.year, None);
    assert_eq!(l.channels, 2);
    assert_eq!(l.sample_rate, 44100);
    assert_eq!(l.bit_depth, 16);
    assert_eq!(l.samples(), &Vec::<i32>::new());
}

#[test]
fn flac_without_tags() {
    let l = Lilac::from_flac(flac_stream(&[])).expect("a track");
    assert_eq!(l, Lilac::new(2, 44100, 16, vec![]));
}

#[test]
fn flac_track_number_is_the_first_value_only() {
    let l = Lilac::from_flac(flac_stream(&["TRACKNUMBER=1/9", "TRACKNUMBER=1"])).expect("a track");
    assert_eq!(l.track, None);
}

#[test]
fn from_flac_refuses_what_is_no_flac() {
    assert!(matches!(Lilac::from_flac(Vec::new()), Err(LilacError::Flac(_))));
    assert!(matches!(Lilac::from_flac(b"OggS no flac".to_vec()), Err(LilacError::Flac(_))));
    let mut cut = flac_stream(&[]);
    cut.truncate(20);
    assert!(matches!(Lilac::from_flac(cut), Err(LilacError::Flac(_))));
}

#[test]
fn from_ogg_refuses_what_is_no_ogg() {
    assert!(matches!(Lilac::from_ogg(Vec::new()), Err(LilacError::Ogg(_))));
    assert!(matches!(Lilac::from_ogg(b"fLaC no ogg at all here".to_vec()), Err(LilacError::Ogg(_))));
}

#[test]
fn from_mp3_refuses_a_stream_without_a_frame() {
    assert!(matches!(Lilac::from_mp3(Vec::new()), Err(LilacError::Mp3(_))));
    assert!(matches!(Lilac::from_mp3(vec![0; 4096]), Err(LilacError::Mp3(_))));
}
