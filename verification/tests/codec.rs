use bytes::BytesMut;
use radio::codec::ChunksCodec;
use radio::timing::PlaybackTiming;
use radio::timing::TrackError;
use radio::timing::PACING_SECONDS;

fn source(len: usize) -> Vec<u8> {
    (0..len).map(|i| (i % 251) as u8).collect()
}

fn cut(bytes: &[u8], bps: usize, duration: usize) -> Vec<Vec<u8>> {
    let mut codec = ChunksCodec::new(bps, duration);
    let mut buf = BytesMut::from(bytes);
    let chunks = codec.decode_all(&mut buf);
    assert!(buf.is_empty());
    chunks.iter().map(|chunk| chunk.to_vec()).collect()
}

#[test]
fn ten_bytes_in_two_seconds() {
    let bytes = source(10);
    let mut codec = ChunksCodec::new(5, 2);
    let mut buf = BytesMut::from(&bytes[..]);
    let first = codec.decode(&mut buf).unwrap();
    assert_eq!(&first[..], &bytes[0..5]);
    assert_eq!(&buf[..], &bytes[5..10]);
    let second = codec.decode(&mut buf).unwrap();
    assert_eq!(&second[..], &bytes[5..10]);
    assert!(buf.is_empty());
    assert!(codec.decode(&mut buf).is_none());
}

#[test]
fn seven_bytes_in_two_seconds() {
    let bytes = source(7);
    let timing = PlaybackTiming::new(7, 2).unwrap();
    assert_eq!(timing.bytes_per_second, 3);
    let mut codec = timing.codec();
    let mut buf = BytesMut::from(&bytes[..]);
    let first = codec.decode(&mut buf).unwrap();
    assert_eq!(&first[..], &bytes[0..3]);
    let second = codec.decode(&mut buf).unwrap();
    assert_eq!(&second[..], &bytes[3..7]);
    assert_eq!(second.len(), 4);
    assert!(codec.decode(&mut buf).is_none());
    assert!(buf.is_empty());
}

#[test]
fn a_regular_chunk_waits_for_more_than_its_size() {
    let mut codec = ChunksCodec::new(5, 3);
    let mut buf = BytesMut::from(&[1u8, 2, 3, 4, 5][..]);
    assert!(codec.decode(&mut buf).is_none());
    assert_eq!(&buf[..], &[1u8, 2, 3, 4, 5][..]);
    buf.extend_from_slice(&[6u8]);
    let chunk = codec.decode(&mut buf).unwrap();
    assert_eq!(&chunk[..], &[1u8, 2, 3, 4, 5][..]);
    assert_eq!(&buf[..], &[6u8][..]);
}

#[test]
fn the_last_chunk_takes_all_that_is_left() {
    let mut codec = ChunksCodec::new(2, 1);
    let mut buf = BytesMut::from(&[1u8, 2, 3, 4, 5][..]);
    let chunk = codec.decode(&mut buf).unwrap();
    assert_eq!(&chunk[..], &[1u8, 2, 3, 4, 5][..]);
    assert!(buf.is_empty());
    assert!(codec.decode(&mut buf).is_none());
}

#[test]
fn an_empty_buffer_yields_nothing() {
    let mut codec = ChunksCodec::new(0, 1);
    let mut buf = BytesMut::new();
    assert!(codec.decode(&mut buf).is_none());
    assert!(cut(&[], 0, 3).is_empty());
}

#[test]
fn a_stage_of_no_seconds_yields_nothing() {
    let mut codec = ChunksCodec::new(4, 0);
    let mut buf = BytesMut::from(&[1u8, 2, 3, 4, 5][..]);
    assert!(codec.decode(&mut buf).is_none());
    assert_eq!(buf.len(), 5);
}

#[test]
fn chunks_rebuild_the_track() {
    for (len, duration) in [(10usize, 2usize), (7, 2), (1000, 7), (10, 4), (3, 3), (1, 1)] {
        let bytes = source(len);
        let bps = len / duration;
        let chunks = cut(&bytes, bps, duration);
        assert_eq!(chunks.len(), duration);
        for chunk in &chunks[..duration - 1] {
            assert_eq!(chunk.len(), bps);
        }
        assert_eq!(chunks[duration - 1].len(), bps + len % duration);
        assert_eq!(chunks.concat(), bytes);
    }
}

#[test]
fn a_track_shorter_than_its_seconds_has_empty_regular_chunks() {
    let chunks = cut(&[9u8, 8], 2 / 3, 3);
    assert_eq!(chunks, vec![vec![], vec![], vec![9u8, 8]]);
}

#[test]
fn a_short_buffer_keeps_its_residue() {
    let mut codec = ChunksCodec::new(5, 3);
    let mut buf = BytesMut::from(&source(7)[..]);
    let chunks = codec.decode_all(&mut buf);
    assert_eq!(chunks.len(), 1);
    assert_eq!(&chunks[0][..], &source(7)[0..5]);
    assert_eq!(&buf[..], &source(7)[5..7]);
}

#[test]
fn timing_divides_and_rounds_down() {
    assert_eq!(
        PlaybackTiming::new(10, 2),
        Ok(PlaybackTiming { bytes_per_second: 5, duration: 2 })
    );
    assert_eq!(
        PlaybackTiming::new(7, 2),
        Ok(PlaybackTiming { bytes_per_second: 3, duration: 2 })
    );
    assert_eq!(
        PlaybackTiming::new(1, 3),
        Ok(PlaybackTiming { bytes_per_second: 0, duration: 3 })
    );
}

#[test]
fn timing_refuses_a_zero_duration() {
    assert_eq!(PlaybackTiming::new(10, 0), Err(TrackError::ZeroDuration));
    assert_eq!(PlaybackTiming::new(0, 0), Err(TrackError::ZeroDuration));
}

#[test]
fn one_chunk_stands_for_one_second() {
    assert_eq!(PACING_SECONDS, 1);
}
