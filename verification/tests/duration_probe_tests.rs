use gdyx_study::duration_probe::{chunk_step, probe_step, ProbeAction, ProbeEvent, ProbeFailure, ProbeState};

fn boxed(kind: &[u8; 4], payload: &[u8]) -> Vec<u8> {
    let mut b = ((payload.len() + 8) as u32).to_be_bytes().to_vec();
    b.extend_from_slice(kind);
    b.extend_from_slice(payload);
    b
}

/// The head of an MP4 file of `file_len` bytes whose movie header has the
/// given timescale and duration, followed by the header of an `mdat` box that
/// runs to the end of the file.
fn mp4_head(file_len: u64, timescale: u32, duration: u32) -> Vec<u8> {
    let ftyp = boxed(b"ftyp", b"isom\x00\x00\x02\x00isom");
    let mut mvhd = vec![0u8; 4]; // version 0, flags
    mvhd.extend_from_slice(&0u32.to_be_bytes()); // creation
    mvhd.extend_from_slice(&0u32.to_be_bytes()); // modification
    mvhd.extend_from_slice(&timescale.to_be_bytes());
    mvhd.extend_from_slice(&duration.to_be_bytes());
    mvhd.extend_from_slice(&0x0001_0000u32.to_be_bytes()); // rate
    mvhd.extend_from_slice(&0x0100u16.to_be_bytes()); // volume
    mvhd.extend_from_slice(&[0u8; 10]); // reserved
    for m in [0x0001_0000i32, 0, 0, 0, 0x0001_0000, 0, 0, 0, 0x4000_0000] {
        mvhd.extend_from_slice(&m.to_be_bytes());
    }
    mvhd.extend_from_slice(&[0u8; 24]); // pre_defined
    mvhd.extend_from_slice(&2u32.to_be_bytes()); // next track id
    let moov = boxed(b"moov", &boxed(b"mvhd", &mvhd));
    let mut head = ftyp;
    head.extend_from_slice(&moov);
    let mdat_len = file_len - head.len() as u64;
    head.extend_from_slice(&(mdat_len as u32).to_be_bytes());
    head.extend_from_slice(b"mdat");
    head
}

fn after_length(header: &str) -> ProbeState {
    probe_step(ProbeState::AwaitingLength, ProbeEvent::Length(Ok(Some(header.to_string())))).state
}

#[test]
fn the_size_sets_the_first_range() {
    let s = probe_step(ProbeState::AwaitingLength, ProbeEvent::Length(Ok(Some("1000000".to_string()))));
    assert_eq!(s.action, ProbeAction::FetchRange { end: 51_200 });
    assert_eq!(s.state, ProbeState::AwaitingChunk { content_length: 1_000_000, attempt: 0, end: 51_200 });
    let small = probe_step(ProbeState::AwaitingLength, ProbeEvent::Length(Ok(Some("1000".to_string()))));
    assert_eq!(small.action, ProbeAction::FetchRange { end: 999 });
    let empty = probe_step(ProbeState::AwaitingLength, ProbeEvent::Length(Ok(Some("0".to_string()))));
    assert_eq!(empty.action, ProbeAction::FetchRange { end: 0 });
}

#[test]
fn a_missing_or_bad_size_fails() {
    for header in [None, Some("abc".to_string()), Some("-5".to_string()), Some(String::new())] {
        let s = probe_step(ProbeState::AwaitingLength, ProbeEvent::Length(Ok(header)));
        assert_eq!(s.action, ProbeAction::Fail(ProbeFailure::NoContentLength));
    }
    let s = probe_step(ProbeState::AwaitingLength, ProbeEvent::Length(Err("dns".to_string())));
    assert_eq!(s.action, ProbeAction::Fail(ProbeFailure::Request("dns".to_string())));
}

#[test]
fn a_readable_head_gives_the_duration() {
    let len = 5_000_000;
    let state = after_length("5000000");
    let s = probe_step(state, ProbeEvent::Chunk(Ok(mp4_head(len, 1000, 123_456))));
    assert_eq!(s.action, ProbeAction::Done { millis: 123_456 });
    assert_eq!(s.parse_error, None);
    let state = after_length("5000000");
    let s = probe_step(state, ProbeEvent::Chunk(Ok(mp4_head(len, 600, 90_000))));
    assert_eq!(s.action, ProbeAction::Done { millis: 150_000 });
}

#[test]
fn an_unusable_header_fails_or_moves_on() {
    let len = 5_000_000;
    let s = probe_step(after_length("5000000"), ProbeEvent::Chunk(Ok(mp4_head(len, 0, 10))));
    assert_eq!(s.action, ProbeAction::Fail(ProbeFailure::ZeroTimescale));
    // zero duration is implausible; few bytes came back, so ranges are not honoured
    let s = probe_step(after_length("5000000"), ProbeEvent::Chunk(Ok(mp4_head(len, 1000, 0))));
    assert_eq!(s.action, ProbeAction::Fail(ProbeFailure::NoRangeSupport));
}

#[test]
fn unreadable_bytes_move_to_the_next_range() {
    let s = probe_step(after_length("100000000"), ProbeEvent::Chunk(Ok(vec![0xAB; 40_000])));
    assert!(s.parse_error.is_some());
    assert_eq!(s.action, ProbeAction::FetchRange { end: 204_800 });
    assert_eq!(s.state, ProbeState::AwaitingChunk { content_length: 100_000_000, attempt: 1, end: 204_800 });
}

#[test]
fn too_few_bytes_mean_no_range_support() {
    let s = probe_step(after_length("100000000"), ProbeEvent::Chunk(Ok(vec![0u8; 100])));
    assert!(s.parse_error.is_some());
    assert_eq!(s.action, ProbeAction::Fail(ProbeFailure::NoRangeSupport));
}

#[test]
fn six_ranges_at_most() {
    let mut state = after_length("100000000");
    let mut asked = 51_200usize;
    for end in [204_800u64, 1_048_576, 4_194_304, 16_777_216, 67_108_864] {
        let s = probe_step(state, ProbeEvent::Chunk(Ok(vec![0xAB; asked + 1])));
        assert_eq!(s.action, ProbeAction::FetchRange { end });
        state = s.state;
        asked = end as usize;
    }
    let s = probe_step(state, ProbeEvent::Chunk(Ok(vec![0xAB; asked + 1])));
    assert_eq!(s.action, ProbeAction::Fail(ProbeFailure::NoDuration));
}

#[test]
fn a_failed_range_request_fails() {
    let s = probe_step(after_length("100000000"), ProbeEvent::Chunk(Err("reset".to_string())));
    assert_eq!(s.action, ProbeAction::Fail(ProbeFailure::Request("reset".to_string())));
}

#[test]
fn chunk_step_decides_from_the_header() {
    let kept = ProbeState::AwaitingChunk { content_length: 1_000_000, attempt: 0, end: 51_200 };
    let s = chunk_step(1_000_000, 0, 51_200, 144, Some((123_456, 1000)), None);
    assert_eq!((s.state, s.action), (kept.clone(), ProbeAction::Done { millis: 123_456 }));
    let s = chunk_step(1_000_000, 0, 51_200, 144, Some((10, 0)), None);
    assert_eq!((s.state, s.action), (kept.clone(), ProbeAction::Fail(ProbeFailure::ZeroTimescale)));
    let s = chunk_step(1_000_000, 0, 51_200, 144, Some((u64::MAX / 999, 1)), None);
    assert_eq!((s.state, s.action), (kept.clone(), ProbeAction::Fail(ProbeFailure::DurationOverflow)));
    // a million seconds is not plausible; enough bytes came, so the next range follows
    let s = chunk_step(1_000_000, 0, 51_200, 51_201, Some((1_000_000, 1)), None);
    assert_eq!(s.action, ProbeAction::FetchRange { end: 204_800 });
    let s = chunk_step(1_000_000, 0, 51_200, 51_201, None, Some("bad box".to_string()));
    assert_eq!(s.action, ProbeAction::FetchRange { end: 204_800 });
    assert_eq!(s.parse_error, Some("bad box".to_string()));
    let s = chunk_step(1_000_000, 0, 51_200, 25_599, None, None);
    assert_eq!((s.state, s.action), (kept, ProbeAction::Fail(ProbeFailure::NoRangeSupport)));
}

#[test]
fn failures_keep_the_state() {
    let s = probe_step(ProbeState::AwaitingLength, ProbeEvent::Length(Ok(None)));
    assert_eq!(s.state, ProbeState::AwaitingLength);
    let state = after_length("100000000");
    let s = probe_step(state.clone(), ProbeEvent::Chunk(Err("reset".to_string())));
    assert_eq!(s.state, state);
}
