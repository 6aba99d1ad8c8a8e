use vstd::prelude::*;

use crate::text::{parse_u64, u64_of_text};

verus! {

#[verifier::external_type_specification]
#[verifier::external_body]
pub struct ExMp4Error(mp4::Error);

/// What the `mp4` crate's reader makes of `bytes`, the first bytes of a file
/// of `size` bytes: `Some(Some(h))` where it reads a movie header `h`
/// (`mvhd` duration and timescale), `Some(None)` where it reports an error,
/// and `None` where it does not return (its box parsers panic on some
/// malformed boxes, such as an `emsg` box shorter than its fixed fields).
pub uninterp spec fn mp4_movie_header(bytes: Seq<u8>, size: u64) -> Option<Option<(u64, u32)>>;

/// Calls `mp4::Mp4Reader::read_header` on `bytes` (behind a `Cursor`) with the
/// file size `size`, and hands out the duration and timescale of the movie
/// header it read. The contract claims that the outcome is a function of
/// `bytes` and `size`, named `mp4_movie_header`; it is called only on bytes
/// on which the reader returns, and it leaves unsaid which bytes those are
/// and which of them the reader accepts.
#[verifier::external_body]
fn read_movie_header(bytes: &[u8], size: u64) -> (header: Result<(u64, u32), mp4::Error>)
    requires
        mp4_movie_header(bytes@, size) is Some,
    ensures
        match header {
            Ok(h) => mp4_movie_header(bytes@, size) == Some(Some(h)),
            Err(_) => mp4_movie_header(bytes@, size) == Some(None::<(u64, u32)>),
        },
{
    mp4::Mp4Reader::read_header(std::io::Cursor::new(bytes), size).map(
        |reader| (reader.moov.mvhd.duration, reader.moov.mvhd.timescale),
    )
}

/// The text of an error of the `mp4` crate, by its `Display`; nothing is
/// claimed of the text.
#[verifier::external_body]
fn mp4_error_text(error: &mp4::Error) -> String {
    format!("{}", error)
}

/// How many bytes the successive range requests ask for at most.
pub open spec fn chunk_size(attempt: int) -> u64 {
    if attempt == 0 { 51200 }
    else if attempt == 1 { 204800 }
    else if attempt == 2 { 1048576 }
    else if attempt == 3 { 4194304 }
    else if attempt == 4 { 16777216 }
    else { 67108864 }
}

/// Number of range requests the probe makes at most.
pub const ATTEMPTS: usize = 6;

/// Last byte asked for by range request `attempt` of a file of
/// `content_length` bytes: the chunk's size, but never past the file's last byte.
pub open spec fn range_end(attempt: int, content_length: u64) -> u64 {
    let last: u64 = if content_length == 0 { 0 } else { (content_length - 1) as u64 };
    if chunk_size(attempt) <= last { chunk_size(attempt) } else { last }
}

fn range_end_of(attempt: usize, content_length: u64) -> (end: u64)
    requires
        attempt < ATTEMPTS,
    ensures
        end == range_end(attempt as int, content_length),
{
    let size: u64 = match attempt {
        0 => 51200,
        1 => 204800,
        2 => 1048576,
        3 => 4194304,
        4 => 16777216,
        _ => 67108864,
    };
    let last = content_length.saturating_sub(1);
    if size <= last { size } else { last }
}

/// Where a duration probe stands.
#[derive(Debug, Clone, PartialEq, Eq)]
pub enum ProbeState {
    /// Waiting for the file's size, from a HEAD request.
    AwaitingLength,
    /// Waiting for the first `end + 1` bytes (range request number `attempt`).
    AwaitingChunk { content_length: u64, attempt: usize, end: u64 },
}

/// Well-formed probe states: a pending range request is one of the six, for
/// the range that its number gives.
pub open spec fn probe_state_wf(s: ProbeState) -> bool {
    match s {
        ProbeState::AwaitingLength => true,
        ProbeState::AwaitingChunk { content_length, attempt, end } =>
            attempt < ATTEMPTS && end == range_end(attempt as int, content_length),
    }
}

/// What the outside world tells the probe.
#[derive(Debug, PartialEq, Eq)]
pub enum ProbeEvent {
    /// The answer to the HEAD request: the `content-length` header's text
    /// where it is present and visible ASCII, or the request's error text.
    Length(Result<Option<String>, String>),
    /// The answer to the pending range request: the bytes received, or the
    /// request's error text.
    Chunk(Result<Vec<u8>, String>),
}

/// Why no duration was found.
#[derive(Debug, Clone, PartialEq, Eq)]
pub enum ProbeFailure {
    /// A request failed; its error text.
    Request(String),
    /// The HEAD answer has no usable `content-length`.
    NoContentLength,
    /// Fewer bytes came back than half the range asked for: the server
    /// ignores ranges.
    NoRangeSupport,
    /// No range up to the largest gave a duration.
    NoDuration,
    /// The movie header's timescale is zero, so its duration divides by zero.
    ZeroTimescale,
    /// The movie header's duration in milliseconds exceeds `u64`.
    DurationOverflow,
}

/// What the probe asks for next.
#[derive(Debug, Clone, PartialEq, Eq)]
pub enum ProbeAction {
    /// Fetch bytes `0..=end` of the file.
    FetchRange { end: u64 },
    /// The duration, in whole milliseconds.
    Done { millis: u64 },
    Fail(ProbeFailure),
}

/// One step of the probe.
#[derive(Debug, Clone, PartialEq, Eq)]
pub struct ProbeStep {
    pub state: ProbeState,
    pub action: ProbeAction,
    /// The `mp4` crate's error text where the bytes just received did not parse.
    pub parse_error: Option<String>,
}

/// A plausible duration: more than zero and less than a million seconds.
pub open spec fn plausible_millis(millis: int) -> bool {
    0 < millis < 1_000_000_000
}

/// The duration in milliseconds of a movie header, as the `mp4` crate
/// computes it (whole milliseconds, rounded down).
pub open spec fn header_millis(duration: u64, timescale: u32) -> int {
    (duration * 1000) / (timescale as int)
}

/// What the probe does after range request `attempt` (asking up to `end`)
/// gave too little to read a duration from: it gives up where the server
/// answered with at most half the range, moves to the next range while one
/// is left, and gives up otherwise.
pub open spec fn after_unusable_chunk(content_length: u64, attempt: int, end: u64, received: int) -> (ProbeState, ProbeAction) {
    let half: int = if end == 0 { 0 } else { (end - 1) / 2 };
    if received <= half {
        (ProbeState::AwaitingChunk { content_length, attempt: attempt as usize, end }, ProbeAction::Fail(ProbeFailure::NoRangeSupport))
    } else if attempt + 1 < ATTEMPTS {
        let next = range_end(attempt + 1, content_length);
        (ProbeState::AwaitingChunk { content_length, attempt: (attempt + 1) as usize, end: next }, ProbeAction::FetchRange { end: next })
    } else {
        (ProbeState::AwaitingChunk { content_length, attempt: attempt as usize, end }, ProbeAction::Fail(ProbeFailure::NoDuration))
    }
}

/// What the probe does after range request `attempt` (asking up to `end`)
/// of a file of `content_length` bytes brought `received` bytes, of which the
/// `mp4` crate read `header` (a movie header's duration and timescale, or
/// `None` where it reported an error). A zero timescale or a duration whose
/// milliseconds exceed `u64` is a failure; a plausible duration is the
/// result; anything else is an unusable chunk. Failures and the result keep
/// the state.
pub open spec fn chunk_outcome(content_length: u64, attempt: usize, end: u64, received: int, header: Option<(u64, u32)>) -> (ProbeState, ProbeAction) {
    let kept = ProbeState::AwaitingChunk { content_length, attempt, end };
    match header {
        Some((duration, timescale)) => if timescale == 0 {
            (kept, ProbeAction::Fail(ProbeFailure::ZeroTimescale))
        } else if duration * 1000 > u64::MAX {
            (kept, ProbeAction::Fail(ProbeFailure::DurationOverflow))
        } else if plausible_millis(header_millis(duration, timescale)) {
            (kept, ProbeAction::Done { millis: header_millis(duration, timescale) as u64 })
        } else {
            after_unusable_chunk(content_length, attempt as int, end, received)
        },
        None => after_unusable_chunk(content_length, attempt as int, end, received),
    }
}

/// Decides what follows a chunk of `received` bytes from the `mp4` crate's
/// reading `header` of it, carrying the reader's error text `parse_error`
/// along.
pub fn chunk_step(
    content_length: u64,
    attempt: usize,
    end: u64,
    received: usize,
    header: Option<(u64, u32)>,
    parse_error: Option<String>,
) -> (step: ProbeStep)
    requires
        attempt < ATTEMPTS,
        end == range_end(attempt as int, content_length),
    ensures
        (step.state, step.action) == chunk_outcome(content_length, attempt, end, received as int, header),
        step.parse_error == parse_error,
        probe_state_wf(step.state),
{
    let kept = ProbeState::AwaitingChunk { content_length, attempt, end };
    if let Some((duration, timescale)) = header {
        if timescale == 0 {
            return ProbeStep { state: kept, action: ProbeAction::Fail(ProbeFailure::ZeroTimescale), parse_error };
        }
        let scaled = match duration.checked_mul(1000) {
            Some(m) => m,
            None => {
                return ProbeStep { state: kept, action: ProbeAction::Fail(ProbeFailure::DurationOverflow), parse_error };
            },
        };
        let millis = scaled / (timescale as u64);
        if 0 < millis && millis < 1_000_000_000 {
            return ProbeStep { state: kept, action: ProbeAction::Done { millis }, parse_error };
        }
    }
    let half = end.saturating_sub(1) / 2;
    if received as u64 <= half {
        ProbeStep { state: kept, action: ProbeAction::Fail(ProbeFailure::NoRangeSupport), parse_error }
    } else if attempt + 1 < ATTEMPTS {
        let next = range_end_of(attempt + 1, content_length);
        ProbeStep {
            state: ProbeState::AwaitingChunk { content_length, attempt: attempt + 1, end: next },
            action: ProbeAction::FetchRange { end: next },
            parse_error,
        }
    } else {
        ProbeStep { state: kept, action: ProbeAction::Fail(ProbeFailure::NoDuration), parse_error }
    }
}

/// Whether `event` is the answer that `state` waits for.
pub open spec fn probe_event_fits(state: ProbeState, event: ProbeEvent) -> bool {
    match (state, event) {
        (ProbeState::AwaitingLength, ProbeEvent::Length(_)) => true,
        (ProbeState::AwaitingChunk { .. }, ProbeEvent::Chunk(_)) => true,
        _ => false,
    }
}

/// One step of the probe, as a relation between the state, the answer and
/// the step taken.
pub open spec fn probe_step_spec(state: ProbeState, event: ProbeEvent, step: ProbeStep) -> bool {
    match (state, event) {
        (ProbeState::AwaitingLength, ProbeEvent::Length(Err(e))) =>
            step.state == state && step.action == ProbeAction::Fail(ProbeFailure::Request(e))
                && step.parse_error is None,
        (ProbeState::AwaitingLength, ProbeEvent::Length(Ok(header))) =>
            step.parse_error is None && match header {
                Some(t) => match u64_of_text(t@) {
                    Some(len) => step.state == (ProbeState::AwaitingChunk {
                        content_length: len, attempt: 0, end: range_end(0, len) })
                        && step.action == (ProbeAction::FetchRange { end: range_end(0, len) }),
                    None => step.state == state && step.action == ProbeAction::Fail(ProbeFailure::NoContentLength),
                },
                None => step.state == state && step.action == ProbeAction::Fail(ProbeFailure::NoContentLength),
            },
        (ProbeState::AwaitingChunk { .. }, ProbeEvent::Chunk(Err(e))) =>
            step.state == state && step.action == ProbeAction::Fail(ProbeFailure::Request(e))
                && step.parse_error is None,
        (ProbeState::AwaitingChunk { content_length, attempt, end }, ProbeEvent::Chunk(Ok(bytes))) =>
            match mp4_movie_header(bytes@, content_length) {
                Some(header) =>
                    (step.state, step.action) == chunk_outcome(content_length, attempt, end, bytes@.len() as int, header)
                        && (step.parse_error is Some <==> header is None),
                None => false,
            },
        _ => false,
    }
}

/// Whether the bytes of a chunk answer are ones the `mp4` crate's reader
/// returns on (other answers always are).
pub open spec fn chunk_readable(state: ProbeState, event: ProbeEvent) -> bool {
    match (state, event) {
        (ProbeState::AwaitingChunk { content_length, .. }, ProbeEvent::Chunk(Ok(bytes))) =>
            mp4_movie_header(bytes@, content_length) is Some,
        _ => true,
    }
}

/// Finds the duration of an MP4 file from its head: reads the file's size
/// from a HEAD answer, then asks for the first 50 KiB, 200 KiB, 1 MiB, 4 MiB,
/// 16 MiB and 64 MiB in turn until the `mp4` crate reads a movie header of a
/// plausible duration from them.
pub fn probe_step(state: ProbeState, event: ProbeEvent) -> (step: ProbeStep)
    requires
        probe_state_wf(state),
        probe_event_fits(state, event),
        chunk_readable(state, event),
    ensures
        probe_state_wf(step.state),
        probe_step_spec(state, event, step),
{
    match state {
        ProbeState::AwaitingLength => match event {
            ProbeEvent::Length(Err(e)) => ProbeStep {
                state: ProbeState::AwaitingLength,
                action: ProbeAction::Fail(ProbeFailure::Request(e)),
                parse_error: None,
            },
            ProbeEvent::Length(Ok(header)) => {
                let length = match &header {
                    Some(t) => parse_u64(t.as_str()),
                    None => None,
                };
                match length {
                    Some(len) => {
                        let end = range_end_of(0, len);
                        ProbeStep {
                            state: ProbeState::AwaitingChunk { content_length: len, attempt: 0, end },
                            action: ProbeAction::FetchRange { end },
                            parse_error: None,
                        }
                    },
                    None => ProbeStep {
                        state: ProbeState::AwaitingLength,
                        action: ProbeAction::Fail(ProbeFailure::NoContentLength),
                        parse_error: None,
                    },
                }
            },
            ProbeEvent::Chunk(_) => {
                proof {
                    assert(false);
                }
                ProbeStep {
                    state: ProbeState::AwaitingLength,
                    action: ProbeAction::Fail(ProbeFailure::NoContentLength),
                    parse_error: None,
                }
            },
        },
        ProbeState::AwaitingChunk { content_length, attempt, end } => match event {
            ProbeEvent::Chunk(Err(e)) => ProbeStep {
                state: ProbeState::AwaitingChunk { content_length, attempt, end },
                action: ProbeAction::Fail(ProbeFailure::Request(e)),
                parse_error: None,
            },
            ProbeEvent::Chunk(Ok(bytes)) => {
                let received = bytes.len();
                match read_movie_header(bytes.as_slice(), content_length) {
                    Ok(header) => chunk_step(content_length, attempt, end, received, Some(header), None),
                    Err(e) => {
                        let text = mp4_error_text(&e);
                        chunk_step(content_length, attempt, end, received, None, Some(text))
                    },
                }
            },
            ProbeEvent::Length(_) => {
                proof {
                    assert(false);
                }
                ProbeStep {
                    state: ProbeState::AwaitingLength,
                    action: ProbeAction::Fail(ProbeFailure::NoContentLength),
                    parse_error: None,
                }
            },
        },
    }
}

/// Law: each range request ends within its chunk and, for a non-empty file,
/// before the file's end; a later request never asks for less.
pub proof fn law_range_end_bounds(attempt: int, later: int, content_length: u64)
    requires
        0 <= attempt <= later < ATTEMPTS,
    ensures
        range_end(attempt, content_length) <= chunk_size(attempt),
        content_length > 0 ==> range_end(attempt, content_length) < content_length,
        range_end(attempt, content_length) <= range_end(later, content_length),
{
    assert(chunk_size(attempt) <= chunk_size(later));
}

/// Law: the probe asks for ranges one after the other: the first range
/// request follows the size, each further one follows an unusable chunk and
/// is the next in number for the same file, and the state records the range
/// asked for. With six numbers, at most six ranges are ever asked for.
pub proof fn law_probe_advances(state: ProbeState, event: ProbeEvent, step: ProbeStep)
    requires
        probe_state_wf(state),
        probe_step_spec(state, event, step),
        step.action is FetchRange,
    ensures
        step.state matches ProbeState::AwaitingChunk { end, .. } && step.action == (ProbeAction::FetchRange { end }),
        match state {
            ProbeState::AwaitingLength => step.state matches ProbeState::AwaitingChunk { attempt, .. } && attempt == 0,
            ProbeState::AwaitingChunk { content_length, attempt, .. } =>
                step.state matches ProbeState::AwaitingChunk { content_length: l2, attempt: a2, .. }
                    && l2 == content_length && a2 == attempt + 1,
        },
{
}

/// Law: the probe reports a duration only where the `mp4` crate read a movie
/// header from the bytes just received, and the duration is that header's
/// (in whole milliseconds) and lies strictly between zero and a million seconds.
pub proof fn law_probe_done_is_plausible(state: ProbeState, event: ProbeEvent, step: ProbeStep)
    requires
        probe_step_spec(state, event, step),
        step.action is Done,
    ensures
        state matches ProbeState::AwaitingChunk { content_length, .. }
            && event matches ProbeEvent::Chunk(Ok(bytes))
            && mp4_movie_header(bytes@, content_length) matches Some(Some((duration, timescale)))
            && timescale > 0
            && step.action == (ProbeAction::Done { millis: header_millis(duration, timescale) as u64 })
            && plausible_millis(header_millis(duration, timescale)),
{
}

/// Law: a movie header read from a chunk decides the probe as the `mp4`
/// crate's `duration()` does: its milliseconds are the whole milliseconds of
/// `duration / timescale` seconds (rounded down, never wrapped), and a
/// duration strictly between zero and a million seconds is the result,
/// whatever the chunk and the attempt; no other duration is ever the result.
pub proof fn law_chunk_reads_duration(
    content_length: u64,
    attempt: usize,
    end: u64,
    received: int,
    duration: u64,
    timescale: u32,
)
    requires
        timescale > 0,
        duration * 1000 <= u64::MAX,
    ensures
        0 < (duration * 1000) / (timescale as int) < 1_000_000_000 ==>
            chunk_outcome(content_length, attempt, end, received, Some((duration, timescale))).1
                == (ProbeAction::Done { millis: ((duration * 1000) / (timescale as int)) as u64 }),
        chunk_outcome(content_length, attempt, end, received, Some((duration, timescale))).1
            matches ProbeAction::Done { millis }
            ==> millis * timescale <= duration * 1000 < (millis + 1) * timescale
                && 0 < millis < 1_000_000_000,
{
    let d: int = duration * 1000;
    let t: int = timescale as int;
    let m: int = d / t;
    assert(m * t <= d < (m + 1) * t) by (nonlinear_arith)
        requires
            t > 0,
            d >= 0,
            m == d / t,
    ;
    assert(0 <= m <= d) by (nonlinear_arith)
        requires
            t > 0,
            d >= 0,
            m == d / t,
    ;
}

} // verus!
