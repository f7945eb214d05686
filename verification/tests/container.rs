use dca_rs::dca::DcaWrapper;
use dca_rs::error::DcaError;
use dca_rs::metadata::Metadata;
use dca_rs::reader::{read_container, read_frames, DcaContainer};

const SONG_HEADER: &str = "{\"dca\":{\"version\":1,\"tool\":{\"name\":\"dca-rs\",\"version\":\"1.0.0\",\"url\":\"https://github.com/Forte-NaoP/dca-rs\",\"author\":\"Forte-NaoP\"}},\"opus\":{\"mode\":\"voip\",\"sample_rate\":48000,\"frame_size\":960,\"abr\":64000,\"vbr\":true,\"channels\":2},\"info\":{\"title\":\"Song\",\"artist\":\"Artist\",\"album\":null,\"genre\":null,\"cover\":null},\"origin\":{\"source\":\"file\",\"abr\":64000,\"channels\":2,\"encoding\":\"Ogg\",\"url\":\"http://x\"},\"extra\":{}}";

fn song() -> Metadata {
    Metadata {
        title: Some("Song".to_string()),
        artist: Some("Artist".to_string()),
        source_url: Some("http://x".to_string()),
        ..Metadata::default()
    }
}

fn with_header() -> DcaWrapper {
    let mut container = DcaWrapper::new(song());
    assert_eq!(container.write_dca_header(), Ok(()));
    container
}

fn header_length_field(raw: &[u8]) -> usize {
    raw[4] as usize
        + 256 * raw[5] as usize
        + 65536 * raw[6] as usize
        + 16777216 * raw[7] as usize
}

#[test]
fn new_builder_has_written_nothing() {
    let container = DcaWrapper::new(song());
    assert!(container.raw().is_empty());
    assert_eq!(container.dca_header(), None);
    assert_eq!(container.dca_data(), None);
    assert!(!container.is_header_written());
    assert!(!container.has_audio_data());
}

#[test]
fn song_with_two_frames_is_laid_out_byte_for_byte() {
    let mut container = with_header();
    assert_eq!(container.write_audio_data(b"\x01\x02"), Ok(()));
    assert_eq!(container.write_audio_data(b"\xAA"), Ok(()));
    let raw = container.raw();

    assert_eq!(&raw[0..4], &[0x44, 0x43, 0x41, 0x31]);
    assert_eq!(&raw[0..4], b"DCA1");
    let h = header_length_field(&raw);
    assert_eq!(h, SONG_HEADER.len());
    let json = std::str::from_utf8(&raw[8..8 + h]).unwrap();
    assert!(json.contains("\"title\":\"Song\""));
    assert_eq!(json, SONG_HEADER);
    assert_eq!(&raw[8 + h..], &[0x02, 0x00, 0x01, 0x02, 0x01, 0x00, 0xAA]);
    assert_eq!(raw.len(), 8 + h + 7);
}

#[test]
fn header_block_is_the_json_of_the_track() {
    let container = with_header();
    assert_eq!(container.dca_header(), Some(SONG_HEADER.as_bytes().to_vec()));
    assert!(container.is_header_written());
    assert_eq!(container.dca_data(), None);
}

#[test]
fn buffer_opens_with_magic_and_header_length() {
    let mut container = DcaWrapper::new(song());
    let header = vec![0x7Bu8; 300];
    assert_eq!(container.write_header_bytes(&header), Ok(()));
    let raw = container.raw();
    assert_eq!(&raw[0..4], b"DCA1");
    assert_eq!(&raw[4..8], &[0x2C, 0x01, 0x00, 0x00]);
    assert_eq!(header_length_field(&raw), 300);
    assert_eq!(&raw[8..308], &header[..]);
    assert_eq!(raw.len(), 308);
}

#[test]
fn header_length_uses_all_four_bytes() {
    let mut container = DcaWrapper::new(song());
    let header = vec![0x20u8; 70000];
    assert_eq!(container.write_header_bytes(&header), Ok(()));
    let raw = container.raw();
    assert_eq!(&raw[4..8], &[0x70, 0x11, 0x01, 0x00]);
    assert_eq!(container.dca_header(), Some(header));
}

#[test]
fn empty_header_block_is_a_container() {
    let mut container = DcaWrapper::new(song());
    assert_eq!(container.write_header_bytes(&[]), Ok(()));
    assert_eq!(container.raw(), vec![0x44, 0x43, 0x41, 0x31, 0, 0, 0, 0]);
    assert_eq!(container.dca_header(), Some(vec![]));
}

#[test]
fn frames_fill_the_buffer_behind_the_header() {
    let mut container = with_header();
    let lengths = [0usize, 1, 2, 255, 256, 1000, 32767];
    let mut sum = 0;
    for (i, len) in lengths.iter().enumerate() {
        assert_eq!(container.write_audio_data(&vec![i as u8; *len]), Ok(()));
        sum += 2 + len;
        let raw = container.raw();
        assert_eq!(sum, raw.len() - 8 - header_length_field(&raw));
    }
    assert_eq!(container.dca_data().unwrap().len(), sum);
}

#[test]
fn frame_length_is_little_endian() {
    let mut container = with_header();
    assert_eq!(container.write_audio_data(&vec![9u8; 0x1234]), Ok(()));
    let data = container.dca_data().unwrap();
    assert_eq!(&data[0..2], &[0x34, 0x12]);
    assert_eq!(data.len(), 2 + 0x1234);
    assert!(data[2..].iter().all(|b| *b == 9));
}

#[test]
fn frame_of_32768_bytes_is_too_large() {
    let mut container = with_header();
    let before = container.raw();
    assert_eq!(
        container.write_audio_data(&vec![0u8; 32768]),
        Err(DcaError::FrameTooLarge)
    );
    assert_eq!(container.raw(), before);
    assert_eq!(container.dca_data(), None);
    assert!(!container.has_audio_data());
    assert_eq!(
        container.write_audio_data(&vec![0u8; 100000]),
        Err(DcaError::FrameTooLarge)
    );
    assert_eq!(container.raw(), before);
}

#[test]
fn frame_of_32767_bytes_round_trips() {
    let mut container = with_header();
    let payload: Vec<u8> = (0..32767u32).map(|i| (i % 251) as u8).collect();
    assert_eq!(container.write_audio_data(&payload), Ok(()));
    let data = container.dca_data().unwrap();
    assert_eq!(&data[0..2], &[0xFF, 0x7F]);
    let read = read_container(&container.raw()).unwrap();
    assert_eq!(read.header, SONG_HEADER.as_bytes());
    assert_eq!(read.frames, vec![payload]);
}

#[test]
fn empty_frame_counts_as_audio_data() {
    let mut container = with_header();
    assert_eq!(container.write_audio_data(&[]), Ok(()));
    assert!(container.has_audio_data());
    assert_eq!(container.dca_data(), Some(vec![0, 0]));
}

#[test]
fn missing_artist_fails_with_missing_required_field() {
    let mut metadata = song();
    metadata.artist = None;
    let mut container = DcaWrapper::new(metadata);
    assert_eq!(
        container.write_dca_header(),
        Err(DcaError::MissingRequiredField)
    );
    assert!(container.raw().is_empty());
    assert!(!container.is_header_written());
    assert_eq!(container.dca_header(), None);
}

#[test]
fn missing_title_fails_with_missing_required_field() {
    let mut metadata = song();
    metadata.title = None;
    let mut container = DcaWrapper::new(metadata);
    assert_eq!(
        container.write_dca_header(),
        Err(DcaError::MissingRequiredField)
    );
    assert!(container.raw().is_empty());

    let mut nothing = DcaWrapper::new(Metadata::default());
    assert_eq!(
        nothing.write_dca_header(),
        Err(DcaError::MissingRequiredField)
    );
}

#[test]
fn title_and_artist_are_enough_for_a_header() {
    let metadata = Metadata {
        title: Some("Song".to_string()),
        artist: Some("Artist".to_string()),
        ..Metadata::default()
    };
    let mut container = DcaWrapper::new(metadata);
    assert_eq!(container.write_dca_header(), Ok(()));
    let header = String::from_utf8(container.dca_header().unwrap()).unwrap();
    assert!(header.contains("\"encoding\":\"Ogg\",\"url\":null}"));
}

#[test]
fn other_fields_of_the_metadata_do_not_reach_the_header() {
    let mut metadata = song();
    metadata.track = Some("Track".to_string());
    metadata.channel = Some("Channel".to_string());
    metadata.channels = Some(1);
    metadata.sample_rate = Some(8000);
    metadata.thumbnail = Some("http://t".to_string());
    let mut container = DcaWrapper::new(metadata);
    assert_eq!(container.write_dca_header(), Ok(()));
    assert_eq!(container.dca_header(), Some(SONG_HEADER.as_bytes().to_vec()));
}

#[test]
fn raw_can_be_taken_again_and_again() {
    let mut container = with_header();
    assert_eq!(container.write_audio_data(b"abc"), Ok(()));
    let first = container.raw();
    let second = container.raw();
    assert_eq!(first, second);
    assert_eq!(container.write_audio_data(b"d"), Ok(()));
    let third = container.raw();
    assert_eq!(&third[..first.len()], &first[..]);
    assert_eq!(&third[first.len()..], &[1, 0, b'd']);
}

#[test]
fn container_without_frames_reads_back() {
    let container = with_header();
    let read = read_container(&container.raw());
    assert_eq!(
        read,
        Some(DcaContainer {
            header: SONG_HEADER.as_bytes().to_vec(),
            frames: vec![],
        })
    );
}

#[test]
fn container_reads_back_as_it_was_built() {
    let mut container = DcaWrapper::new(song());
    let header = b"{\"any\":\"header\"}".to_vec();
    assert_eq!(container.write_header_bytes(&header), Ok(()));
    let frames: Vec<Vec<u8>> = vec![
        vec![1, 2],
        vec![0xAA],
        vec![],
        vec![7; 300],
        b"DCA1".to_vec(),
    ];
    for frame in &frames {
        assert_eq!(container.write_audio_data(frame), Ok(()));
    }
    let read = read_container(&container.raw()).unwrap();
    assert_eq!(read.header, header);
    assert_eq!(read.frames, frames);
}

#[test]
fn reader_takes_the_scenario_apart() {
    let mut bytes = b"DCA1".to_vec();
    bytes.extend_from_slice(&[2, 0, 0, 0]);
    bytes.extend_from_slice(b"{}");
    bytes.extend_from_slice(&[0x02, 0x00, 0x01, 0x02, 0x01, 0x00, 0xAA]);
    assert_eq!(
        read_container(&bytes),
        Some(DcaContainer {
            header: b"{}".to_vec(),
            frames: vec![vec![1, 2], vec![0xAA]],
        })
    );
}

#[test]
fn reader_refuses_what_is_no_container() {
    assert_eq!(read_container(&[]), None);
    assert_eq!(read_container(b"DCA1"), None);
    assert_eq!(read_container(b"DCA1\x00\x00\x00"), None);
    assert_eq!(read_container(b"DCA2\x00\x00\x00\x00"), None);
    assert_eq!(read_container(b"dCA1\x00\x00\x00\x00"), None);
    assert_eq!(read_container(b"DCa1\x00\x00\x00\x00"), None);
    assert_eq!(read_container(b"DcA1\x00\x00\x00\x00"), None);
    // The header is announced longer than what follows.
    assert_eq!(read_container(b"DCA1\x03\x00\x00\x00{}"), None);
    // A negative header length.
    assert_eq!(read_container(b"DCA1\xFF\xFF\xFF\xFF{}"), None);
    assert_eq!(read_container(b"DCA1\x00\x00\x00\x80"), None);
    // A frame length cut short.
    assert_eq!(read_container(b"DCA1\x00\x00\x00\x00\x01"), None);
    // A frame announced longer than what follows.
    assert_eq!(read_container(b"DCA1\x00\x00\x00\x00\x02\x00\x01"), None);
    // A negative frame length.
    let mut negative = b"DCA1\x00\x00\x00\x00\x00\x80".to_vec();
    negative.extend_from_slice(&vec![0u8; 32768]);
    assert_eq!(read_container(&negative), None);
}

#[test]
fn reader_accepts_the_smallest_container() {
    assert_eq!(
        read_container(b"DCA1\x00\x00\x00\x00"),
        Some(DcaContainer {
            header: vec![],
            frames: vec![],
        })
    );
}

#[test]
fn frames_are_read_until_the_bytes_end() {
    assert_eq!(read_frames(&[]), Some(vec![]));
    assert_eq!(read_frames(&[0, 0]), Some(vec![vec![]]));
    assert_eq!(
        read_frames(&[1, 0, 9, 0, 0, 2, 0, 8, 7]),
        Some(vec![vec![9], vec![], vec![8, 7]])
    );
    assert_eq!(read_frames(&[1, 0, 9, 0]), None);
    assert_eq!(read_frames(&[1, 0]), None);
    let mut long = vec![0x00, 0x01];
    long.extend_from_slice(&[5u8; 256]);
    assert_eq!(read_frames(&long), Some(vec![vec![5u8; 256]]));
}
