use vstd::prelude::*;

use crate::api::{check_status_10000, finish_flag, poll_outcome, upload_outcome, PollOutcome, StatusFailure, UploadFailure};
use crate::json::{json_get, json_of_text, member_text, status_is_success, Json, JsonView};
use crate::text::i64_of_text;
use crate::session::{course_video_url, course_video_url_of, CourseInfoFailure};

verus! {

/// The checked requests of a room's walk-through, each with a status check.
#[derive(Clone, Copy, Debug, PartialEq, Eq, Structural)]
pub enum CheckStage {
    Participate,
    Join,
    FirstTag,
    SecondTag,
    FirstVideoTime,
    VideoTime,
    PollVideoTime,
}

/// Where the walk-through of a room stands.
#[derive(Debug, Clone, PartialEq, Eq)]
pub enum RoomPhase {
    /// Nothing sent yet.
    Start,
    /// Waiting for the answer to the participation record.
    Participating,
    /// Waiting for the course description.
    ReadingCourseInfo,
    /// Waiting for the answer to entering the room.
    Joining { video_url: String },
    /// Waiting for the first tag and clock-in answer.
    FirstTagCheck { video_url: String },
    /// Waiting for the video's duration.
    ProbingDuration,
    /// Waiting out the pause after the duration was found.
    FirstPause { all_time: i64 },
    /// Waiting for the second tag and clock-in answer.
    SecondTagCheck { all_time: i64 },
    /// Waiting for the answer to the first watching report (10 seconds).
    FirstWatchReport { all_time: i64 },
    /// Waiting out the long pause.
    LongPause { all_time: i64 },
    /// Waiting for the answer to the report of all but the last ten seconds.
    WatchReport { all_time: i64 },
    /// Waiting out the pause before polling.
    SettlePause { all_time: i64 },
    /// Waiting for the answer to the finishing question.
    Polling { all_time: i64 },
    /// Waiting for the answer to the report sent after an unfinished poll.
    PollReport { all_time: i64 },
    /// Waiting out the pause between polls.
    PollPause { all_time: i64 },
    /// Waiting for the answer to the upload.
    Uploading,
    /// The room is done.
    Finished,
    /// The walk-through stopped on a failure.
    Aborted,
}

/// What the outside world tells the walk-through.
#[derive(Debug, PartialEq, Eq)]
pub enum RoomEvent {
    /// Start the walk-through.
    Begin,
    /// How the pending request ended: the body received, or the text of the
    /// error where it could not be made or was answered with a failing status.
    Reply(Result<String, String>),
    /// The course description, read as JSON.
    CourseInfo(Json),
    /// The video's duration in milliseconds, or why it was not found.
    Duration(Result<u64, String>),
    /// The pause is over.
    Waited,
}

/// Why the walk-through of a room stopped.
#[derive(Debug, Clone, PartialEq, Eq)]
pub enum RoomFailure {
    /// A checked request failed at `stage`.
    Check { stage: CheckStage, failure: StatusFailure },
    /// The course description gives no video.
    CourseInfo(CourseInfoFailure),
    /// The duration was not found; why.
    Duration(String),
    /// The finishing question failed; the error's text.
    PollRequestFailed(String),
    /// The answer to the finishing question is not JSON; the body.
    PollNotJson(String),
    /// The upload failed.
    Upload(UploadFailure),
}

/// What the walk-through asks for next.
#[derive(Debug, Clone, PartialEq, Eq)]
pub enum RoomAction {
    /// Record the learner as taking part in the room.
    ParticipateRoom,
    /// Fetch the course description.
    FetchCourseInfo,
    /// Enter the room, at the current local time.
    JoinRoom,
    /// Fetch the room's tags and clock-in record.
    FetchCourseTag,
    /// Find the duration of the video at `video_url`.
    ProbeDuration { video_url: String },
    /// Pause for `seconds`.
    Wait { seconds: u64 },
    /// Report `video_time` of `all_time` seconds and ask whether the room is finished.
    GetVideoTime { video_time: i64, all_time: i64 },
    /// Report `video_time` of `all_time` seconds.
    ReportVideoTime { video_time: i64, all_time: i64 },
    /// Upload the write-up.
    Upload,
    /// The room is done; the uploaded file's address.
    Done { file_url: String },
    /// Stop on a failure.
    Abort(RoomFailure),
}

/// One step of the walk-through.
#[derive(Debug, Clone, PartialEq, Eq)]
pub struct RoomStep {
    pub phase: RoomPhase,
    pub action: RoomAction,
    /// The `isFinish` read from an unfinished poll.
    pub finish_flag: Option<i64>,
}

/// Whether `event` is what `phase` waits for.
pub open spec fn room_event_fits(phase: RoomPhase, event: RoomEvent) -> bool {
    match phase {
        RoomPhase::Start => event is Begin,
        RoomPhase::ReadingCourseInfo => event is CourseInfo,
        RoomPhase::ProbingDuration => event is Duration,
        RoomPhase::FirstPause { .. } | RoomPhase::LongPause { .. } | RoomPhase::SettlePause { .. }
        | RoomPhase::PollPause { .. } => event is Waited,
        RoomPhase::Finished | RoomPhase::Aborted => false,
        _ => event is Reply,
    }
}

/// The step after a checked request at `stage`: stop where the reply fails
/// the status check, go on to `next` otherwise.
pub open spec fn checked_step(
    reply: Result<String, String>,
    stage: CheckStage,
    next: RoomPhase,
    action: RoomAction,
    step: RoomStep,
) -> bool {
    step.finish_flag is None && match reply {
        Err(message) => step.phase is Aborted
            && step.action == RoomAction::Abort(RoomFailure::Check { stage, failure: StatusFailure::RequestFailed(message) }),
        Ok(body) => match json_of_text(body@) {
            None => step.phase is Aborted
                && step.action == RoomAction::Abort(RoomFailure::Check { stage, failure: StatusFailure::NotJson(body) }),
            Some(v) => if status_is_success(v) {
                step.phase == next && step.action == action
            } else {
                step.phase is Aborted
                    && step.action == RoomAction::Abort(RoomFailure::Check { stage, failure: StatusFailure::NotSuccess(body) })
            },
        },
    }
}

/// The walk-through of a room: record participation, read the course, enter
/// the room, read tags, find the video's duration, pause 10 s, read tags
/// again, report 10 s watched, pause 60 s, report all but the last 10 s,
/// pause 10 s, then ask whether the room is finished (reporting all but the
/// last 5 s) until it is, reporting all but the last 10 s and pausing 10 s
/// after each unfinished answer; once finished, upload the write-up. Any
/// failed check stops the walk-through.
pub open spec fn room_step_spec(phase: RoomPhase, event: RoomEvent, step: RoomStep) -> bool {
    match phase {
        RoomPhase::Start => step.phase is Participating && step.action is ParticipateRoom
            && step.finish_flag is None,
        RoomPhase::Participating => match event {
            RoomEvent::Reply(r) => checked_step(r, CheckStage::Participate, RoomPhase::ReadingCourseInfo,
                RoomAction::FetchCourseInfo, step),
            _ => false,
        },
        RoomPhase::ReadingCourseInfo => match event {
            RoomEvent::CourseInfo(info) => step.finish_flag is None && if member_text(info@, "status"@) != Some("10000"@) {
                &&& step.phase is Aborted
                &&& step.action matches RoomAction::Abort(RoomFailure::CourseInfo(CourseInfoFailure::BadStatus(s)))
                    && match s {
                        Some(t) => member_text(info@, "status"@) == Some(t@),
                        None => member_text(info@, "status"@) is None,
                    }
            } else {
                match course_video_url_of(info@) {
                    Some(u) => if u.len() > 0 {
                        &&& step.action is JoinRoom
                        &&& step.phase matches RoomPhase::Joining { video_url } && video_url@ == u
                    } else {
                        step.phase is Aborted && step.action == RoomAction::Abort(RoomFailure::CourseInfo(CourseInfoFailure::NoVideoUrl))
                    },
                    None => step.phase is Aborted
                        && step.action == RoomAction::Abort(RoomFailure::CourseInfo(CourseInfoFailure::NoVideoUrl)),
                }
            },
            _ => false,
        },
        RoomPhase::Joining { video_url } => match event {
            RoomEvent::Reply(r) => checked_step(r, CheckStage::Join, RoomPhase::FirstTagCheck { video_url },
                RoomAction::FetchCourseTag, step),
            _ => false,
        },
        RoomPhase::FirstTagCheck { video_url } => match event {
            RoomEvent::Reply(r) => checked_step(r, CheckStage::FirstTag, RoomPhase::ProbingDuration,
                RoomAction::ProbeDuration { video_url }, step),
            _ => false,
        },
        RoomPhase::ProbingDuration => match event {
            RoomEvent::Duration(Ok(millis)) => step.finish_flag is None
                && step.phase == (RoomPhase::FirstPause { all_time: (millis / 1000) as i64 })
                && step.action == (RoomAction::Wait { seconds: 10 }),
            RoomEvent::Duration(Err(e)) => step.finish_flag is None && step.phase is Aborted
                && step.action == RoomAction::Abort(RoomFailure::Duration(e)),
            _ => false,
        },
        RoomPhase::FirstPause { all_time } => step.finish_flag is None
            && step.phase == (RoomPhase::SecondTagCheck { all_time }) && step.action is FetchCourseTag,
        RoomPhase::SecondTagCheck { all_time } => match event {
            RoomEvent::Reply(r) => checked_step(r, CheckStage::SecondTag, RoomPhase::FirstWatchReport { all_time },
                RoomAction::GetVideoTime { video_time: 10, all_time }, step),
            _ => false,
        },
        RoomPhase::FirstWatchReport { all_time } => match event {
            RoomEvent::Reply(r) => checked_step(r, CheckStage::FirstVideoTime, RoomPhase::LongPause { all_time },
                RoomAction::Wait { seconds: 60 }, step),
            _ => false,
        },
        RoomPhase::LongPause { all_time } => step.finish_flag is None
            && step.phase == (RoomPhase::WatchReport { all_time })
            && step.action == (RoomAction::ReportVideoTime { video_time: (all_time - 10) as i64, all_time }),
        RoomPhase::WatchReport { all_time } => match event {
            RoomEvent::Reply(r) => checked_step(r, CheckStage::VideoTime, RoomPhase::SettlePause { all_time },
                RoomAction::Wait { seconds: 10 }, step),
            _ => false,
        },
        RoomPhase::SettlePause { all_time } => step.finish_flag is None
            && step.phase == (RoomPhase::Polling { all_time })
            && step.action == (RoomAction::GetVideoTime { video_time: (all_time - 5) as i64, all_time }),
        RoomPhase::Polling { all_time } => match event {
            RoomEvent::Reply(Err(m)) => step.finish_flag is None && step.phase is Aborted
                && step.action == RoomAction::Abort(RoomFailure::PollRequestFailed(m)),
            RoomEvent::Reply(Ok(body)) => match json_of_text(body@) {
                None => step.finish_flag is None && step.phase is Aborted
                    && step.action == RoomAction::Abort(RoomFailure::PollNotJson(body)),
                Some(v) => if status_is_success(v) && finish_flag(v) == 1 {
                    step.finish_flag is None && step.phase is Uploading && step.action is Upload
                } else {
                    step.finish_flag == Some(finish_flag(v))
                        && step.phase == (RoomPhase::PollReport { all_time })
                        && step.action == (RoomAction::ReportVideoTime { video_time: (all_time - 10) as i64, all_time })
                },
            },
            _ => false,
        },
        RoomPhase::PollReport { all_time } => match event {
            RoomEvent::Reply(r) => checked_step(r, CheckStage::PollVideoTime, RoomPhase::PollPause { all_time },
                RoomAction::Wait { seconds: 10 }, step),
            _ => false,
        },
        RoomPhase::PollPause { all_time } => step.finish_flag is None
            && step.phase == (RoomPhase::Polling { all_time })
            && step.action == (RoomAction::GetVideoTime { video_time: (all_time - 5) as i64, all_time }),
        RoomPhase::Uploading => match event {
            RoomEvent::Reply(r) => step.finish_flag is None && match r {
                Err(message) => step.phase is Aborted
                    && step.action == RoomAction::Abort(RoomFailure::Upload(UploadFailure::RequestFailed(message))),
                Ok(body) => match json_of_text(body@) {
                    None => step.phase is Aborted
                        && step.action matches RoomAction::Abort(RoomFailure::Upload(UploadFailure::RequestFailed(_))),
                    Some(v) => if !status_is_success(v) {
                        step.phase is Aborted
                            && step.action == RoomAction::Abort(RoomFailure::Upload(UploadFailure::Rejected(body)))
                    } else {
                        match member_text(v, "url"@) {
                            Some(u) => {
                                &&& step.phase is Finished
                                &&& step.action matches RoomAction::Done { file_url } && file_url@ == u
                            },
                            None => step.phase is Aborted
                                && step.action == RoomAction::Abort(RoomFailure::Upload(UploadFailure::MissingUrl(body))),
                        }
                    },
                },
            },
            _ => false,
        },
        RoomPhase::Finished | RoomPhase::Aborted => false,
    }
}

/// All times that phases carry stay below this bound, so that the reported
/// times `all_time - 10` and `all_time - 5` are computed without overflow.
pub open spec fn room_phase_wf(phase: RoomPhase) -> bool {
    match phase {
        RoomPhase::FirstPause { all_time } | RoomPhase::SecondTagCheck { all_time }
        | RoomPhase::FirstWatchReport { all_time } | RoomPhase::LongPause { all_time }
        | RoomPhase::WatchReport { all_time } | RoomPhase::SettlePause { all_time }
        | RoomPhase::Polling { all_time } | RoomPhase::PollReport { all_time }
        | RoomPhase::PollPause { all_time } => 0 <= all_time <= u64::MAX / 1000,
        _ => true,
    }
}

fn after_check(reply: Result<String, String>, stage: CheckStage, next: RoomPhase, action: RoomAction) -> (step: RoomStep)
    ensures
        checked_step(reply, stage, next, action, step),
{
    match check_status_10000(reply) {
        Ok(_) => RoomStep { phase: next, action, finish_flag: None },
        Err(failure) => RoomStep {
            phase: RoomPhase::Aborted,
            action: RoomAction::Abort(RoomFailure::Check { stage, failure }),
            finish_flag: None,
        },
    }
}

/// Stands in the branches that the precondition of `room_step` rules out.
fn unreachable_step() -> (step: RoomStep)
    ensures
        step == (RoomStep { phase: RoomPhase::Aborted, action: RoomAction::Upload, finish_flag: None }),
{
    RoomStep { phase: RoomPhase::Aborted, action: RoomAction::Upload, finish_flag: None }
}

/// Takes the walk-through of a room one step further: from the phase it
/// stands in and the answer it waited for, to the next phase and what to do.
pub fn room_step(phase: RoomPhase, event: RoomEvent) -> (step: RoomStep)
    requires
        room_phase_wf(phase),
        room_event_fits(phase, event),
    ensures
        room_phase_wf(step.phase),
        room_step_spec(phase, event, step),
{
    match phase {
        RoomPhase::Start => RoomStep {
            phase: RoomPhase::Participating,
            action: RoomAction::ParticipateRoom,
            finish_flag: None,
        },
        RoomPhase::Participating => match event {
            RoomEvent::Reply(r) => after_check(r, CheckStage::Participate, RoomPhase::ReadingCourseInfo, RoomAction::FetchCourseInfo),
            _ => {
                proof {
                    assert(false);
                }
                unreachable_step()
            },
        },
        RoomPhase::ReadingCourseInfo => match event {
            RoomEvent::CourseInfo(info) => match course_video_url(&info) {
                Ok(video_url) => RoomStep {
                    phase: RoomPhase::Joining { video_url },
                    action: RoomAction::JoinRoom,
                    finish_flag: None,
                },
                Err(f) => RoomStep {
                    phase: RoomPhase::Aborted,
                    action: RoomAction::Abort(RoomFailure::CourseInfo(f)),
                    finish_flag: None,
                },
            },
            _ => {
                proof {
                    assert(false);
                }
                unreachable_step()
            },
        },
        RoomPhase::Joining { video_url } => match event {
            RoomEvent::Reply(r) => after_check(r, CheckStage::Join, RoomPhase::FirstTagCheck { video_url }, RoomAction::FetchCourseTag),
            _ => {
                proof {
                    assert(false);
                }
                unreachable_step()
            },
        },
        RoomPhase::FirstTagCheck { video_url } => match event {
            RoomEvent::Reply(r) => after_check(r, CheckStage::FirstTag, RoomPhase::ProbingDuration, RoomAction::ProbeDuration { video_url }),
            _ => {
                proof {
                    assert(false);
                }
                unreachable_step()
            },
        },
        RoomPhase::ProbingDuration => match event {
            RoomEvent::Duration(Ok(millis)) => {
                let all_time = (millis / 1000) as i64;
                RoomStep {
                    phase: RoomPhase::FirstPause { all_time },
                    action: RoomAction::Wait { seconds: 10 },
                    finish_flag: None,
                }
            },
            RoomEvent::Duration(Err(e)) => RoomStep {
                phase: RoomPhase::Aborted,
                action: RoomAction::Abort(RoomFailure::Duration(e)),
                finish_flag: None,
            },
            _ => {
                proof {
                    assert(false);
                }
                unreachable_step()
            },
        },
        RoomPhase::FirstPause { all_time } => RoomStep {
            phase: RoomPhase::SecondTagCheck { all_time },
            action: RoomAction::FetchCourseTag,
            finish_flag: None,
        },
        RoomPhase::SecondTagCheck { all_time } => match event {
            RoomEvent::Reply(r) => after_check(r, CheckStage::SecondTag, RoomPhase::FirstWatchReport { all_time },
                RoomAction::GetVideoTime { video_time: 10, all_time }),
            _ => {
                proof {
                    assert(false);
                }
                unreachable_step()
            },
        },
        RoomPhase::FirstWatchReport { all_time } => match event {
            RoomEvent::Reply(r) => after_check(r, CheckStage::FirstVideoTime, RoomPhase::LongPause { all_time },
                RoomAction::Wait { seconds: 60 }),
            _ => {
                proof {
                    assert(false);
                }
                unreachable_step()
            },
        },
        RoomPhase::LongPause { all_time } => RoomStep {
            phase: RoomPhase::WatchReport { all_time },
            action: RoomAction::ReportVideoTime { video_time: all_time - 10, all_time },
            finish_flag: None,
        },
        RoomPhase::WatchReport { all_time } => match event {
            RoomEvent::Reply(r) => after_check(r, CheckStage::VideoTime, RoomPhase::SettlePause { all_time },
                RoomAction::Wait { seconds: 10 }),
            _ => {
                proof {
                    assert(false);
                }
                unreachable_step()
            },
        },
        RoomPhase::SettlePause { all_time } => RoomStep {
            phase: RoomPhase::Polling { all_time },
            action: RoomAction::GetVideoTime { video_time: all_time - 5, all_time },
            finish_flag: None,
        },
        RoomPhase::Polling { all_time } => match event {
            RoomEvent::Reply(r) => match poll_outcome(r) {
                PollOutcome::RequestFailed(m) => RoomStep {
                    phase: RoomPhase::Aborted,
                    action: RoomAction::Abort(RoomFailure::PollRequestFailed(m)),
                    finish_flag: None,
                },
                PollOutcome::NotJson(body) => RoomStep {
                    phase: RoomPhase::Aborted,
                    action: RoomAction::Abort(RoomFailure::PollNotJson(body)),
                    finish_flag: None,
                },
                PollOutcome::Finished => RoomStep {
                    phase: RoomPhase::Uploading,
                    action: RoomAction::Upload,
                    finish_flag: None,
                },
                PollOutcome::Unfinished(flag) => RoomStep {
                    phase: RoomPhase::PollReport { all_time },
                    action: RoomAction::ReportVideoTime { video_time: all_time - 10, all_time },
                    finish_flag: Some(flag),
                },
            },
            _ => {
                proof {
                    assert(false);
                }
                unreachable_step()
            },
        },
        RoomPhase::PollReport { all_time } => match event {
            RoomEvent::Reply(r) => after_check(r, CheckStage::PollVideoTime, RoomPhase::PollPause { all_time },
                RoomAction::Wait { seconds: 10 }),
            _ => {
                proof {
                    assert(false);
                }
                unreachable_step()
            },
        },
        RoomPhase::PollPause { all_time } => RoomStep {
            phase: RoomPhase::Polling { all_time },
            action: RoomAction::GetVideoTime { video_time: all_time - 5, all_time },
            finish_flag: None,
        },
        RoomPhase::Uploading => match event {
            RoomEvent::Reply(r) => match upload_outcome(r) {
                Ok(file_url) => RoomStep { phase: RoomPhase::Finished, action: RoomAction::Done { file_url }, finish_flag: None },
                Err(f) => RoomStep {
                    phase: RoomPhase::Aborted,
                    action: RoomAction::Abort(RoomFailure::Upload(f)),
                    finish_flag: None,
                },
            },
            _ => {
                proof {
                    assert(false);
                }
                unreachable_step()
            },
        },
        RoomPhase::Finished | RoomPhase::Aborted => {
            proof {
                assert(false);
            }
            unreachable_step()
        },
    }
}

/// The video length in whole seconds that a phase carries, if any.
pub open spec fn phase_all_time(phase: RoomPhase) -> Option<i64> {
    match phase {
        RoomPhase::FirstPause { all_time } | RoomPhase::SecondTagCheck { all_time }
        | RoomPhase::FirstWatchReport { all_time } | RoomPhase::LongPause { all_time }
        | RoomPhase::WatchReport { all_time } | RoomPhase::SettlePause { all_time }
        | RoomPhase::Polling { all_time } | RoomPhase::PollReport { all_time }
        | RoomPhase::PollPause { all_time } => Some(all_time),
        _ => None,
    }
}

/// Law: the write-up is uploaded only right after a reply to the finishing
/// question that is JSON with `status` 10000 and `isFinish` 1.
pub proof fn law_upload_only_when_finished(phase: RoomPhase, event: RoomEvent, step: RoomStep)
    requires
        room_step_spec(phase, event, step),
        step.action is Upload,
    ensures
        phase is Polling,
        event matches RoomEvent::Reply(Ok(body)) && json_of_text(body@) matches Some(v)
            && status_is_success(v) && finish_flag(v) == 1,
{
}

/// Law: a step stops the walk-through exactly when it moves to `Aborted`, and
/// it reports the room done exactly when it moves to `Finished`.
pub proof fn law_stop_is_final(phase: RoomPhase, event: RoomEvent, step: RoomStep)
    requires
        room_step_spec(phase, event, step),
    ensures
        step.action is Abort <==> step.phase is Aborted,
        step.action is Done <==> step.phase is Finished,
{
}

/// Law: the video length found by the probe, in whole seconds, is the one
/// every later report uses: the step after the probe carries it, every step
/// keeps it, and every watching report is about it, with 10, all but 10, or
/// all but 5 seconds watched.
pub proof fn law_video_length_kept(phase: RoomPhase, event: RoomEvent, step: RoomStep)
    requires
        room_phase_wf(phase),
        room_step_spec(phase, event, step),
    ensures
        phase is ProbingDuration ==> (event matches RoomEvent::Duration(Ok(millis))
            ==> phase_all_time(step.phase) == Some((millis / 1000) as i64)),
        (phase_all_time(phase) is Some && phase_all_time(step.phase) is Some)
            ==> phase_all_time(step.phase) == phase_all_time(phase),
        step.action matches RoomAction::GetVideoTime { video_time, all_time }
            ==> phase_all_time(step.phase) == Some(all_time)
                && (video_time == 10 || video_time == all_time - 5),
        step.action matches RoomAction::ReportVideoTime { video_time, all_time }
            ==> phase_all_time(step.phase) == Some(all_time) && video_time == all_time - 10,
{
}

/// Law: an unfinished answer to the finishing question leads, through a
/// successful report and a 10-second pause, back to the same question about
/// the same video length.
pub proof fn law_poll_cycle(
    all_time: i64,
    e1: RoomEvent,
    s1: RoomStep,
    e2: RoomEvent,
    s2: RoomStep,
    e3: RoomEvent,
    s3: RoomStep,
)
    requires
        room_step_spec(RoomPhase::Polling { all_time }, e1, s1),
        s1.finish_flag is Some,
        room_step_spec(s1.phase, e2, s2),
        !(s2.phase is Aborted),
        room_step_spec(s2.phase, e3, s3),
    ensures
        s1.action == (RoomAction::ReportVideoTime { video_time: (all_time - 10) as i64, all_time }),
        s2.action == (RoomAction::Wait { seconds: 10 }),
        s3.phase == (RoomPhase::Polling { all_time }),
        s3.action == (RoomAction::GetVideoTime { video_time: (all_time - 5) as i64, all_time }),
{
}

/// Law: the room is done exactly when the reply to the upload is JSON whose
/// `status` is the string `"10000"` or the integer 10000 and whose `url` is
/// a string; the address reported is that `url`. No other step reaches
/// `Finished`, and any other reply to the upload stops the walk-through.
pub proof fn law_done_only_on_accepted_upload(phase: RoomPhase, event: RoomEvent, step: RoomStep)
    requires
        room_step_spec(phase, event, step),
    ensures
        step.phase is Finished ==> phase is Uploading,
        step.phase is Finished ==> match event {
            RoomEvent::Reply(Ok(body)) => match json_of_text(body@) {
                Some(v) => {
                    &&& match json_get(v, "status"@) {
                        Some(JsonView::Str(s)) => s == "10000"@,
                        Some(JsonView::Number(t)) => i64_of_text(t) == Some(10000i64),
                        _ => false,
                    }
                    &&& match step.action {
                        RoomAction::Done { file_url } => json_get(v, "url"@) == Some(JsonView::Str(file_url@)),
                        _ => false,
                    }
                },
                None => false,
            },
            _ => false,
        },
        phase is Uploading ==> match event {
            RoomEvent::Reply(Ok(body)) => match json_of_text(body@) {
                Some(v) => (match json_get(v, "status"@) {
                    Some(JsonView::Str(s)) => s == "10000"@,
                    Some(JsonView::Number(t)) => i64_of_text(t) == Some(10000i64),
                    _ => false,
                }) || step.phase is Aborted,
                None => step.phase is Aborted,
            },
            RoomEvent::Reply(Err(_)) => step.phase is Aborted,
            _ => true,
        },
{
}

} // verus!
