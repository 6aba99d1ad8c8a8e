use gdyx_study::api::{StatusFailure, UploadFailure};
use gdyx_study::json::Json;
use gdyx_study::room_flow::{room_step, CheckStage, RoomAction, RoomEvent, RoomFailure, RoomPhase};
use gdyx_study::session::CourseInfoFailure;

fn object(fields: Vec<(&str, Json)>) -> Json {
    Json::Object(fields.into_iter().map(|(k, v)| (k.to_string(), v)).collect())
}

fn text(s: &str) -> Json {
    Json::Str(s.to_string())
}

fn reply(body: &str) -> RoomEvent {
    RoomEvent::Reply(Ok(body.to_string()))
}

fn ok_reply() -> RoomEvent {
    reply("{\"status\":10000}")
}

fn poll_reply(finish: i64) -> RoomEvent {
    reply(&format!("{{\"status\":\"10000\",\"isFinish\":{}}}", finish))
}

fn course_info() -> RoomEvent {
    RoomEvent::CourseInfo(object(vec![
        ("status", text("10000")),
        ("courseInfo", object(vec![("roomVideoUrl", text("https://v/a.mp4"))])),
    ]))
}

#[test]
fn a_room_is_walked_through_in_order() {
    let s = room_step(RoomPhase::Start, RoomEvent::Begin);
    assert_eq!(s.action, RoomAction::ParticipateRoom);
    let s = room_step(s.phase, ok_reply());
    assert_eq!(s.action, RoomAction::FetchCourseInfo);
    let s = room_step(s.phase, course_info());
    assert_eq!(s.action, RoomAction::JoinRoom);
    let s = room_step(s.phase, ok_reply());
    assert_eq!(s.action, RoomAction::FetchCourseTag);
    let s = room_step(s.phase, ok_reply());
    assert_eq!(s.action, RoomAction::ProbeDuration { video_url: "https://v/a.mp4".to_string() });
    let s = room_step(s.phase, RoomEvent::Duration(Ok(1_234_567)));
    assert_eq!(s.phase, RoomPhase::FirstPause { all_time: 1234 });
    assert_eq!(s.action, RoomAction::Wait { seconds: 10 });
    let s = room_step(s.phase, RoomEvent::Waited);
    assert_eq!(s.action, RoomAction::FetchCourseTag);
    let s = room_step(s.phase, ok_reply());
    assert_eq!(s.action, RoomAction::GetVideoTime { video_time: 10, all_time: 1234 });
    let s = room_step(s.phase, ok_reply());
    assert_eq!(s.action, RoomAction::Wait { seconds: 60 });
    let s = room_step(s.phase, RoomEvent::Waited);
    assert_eq!(s.action, RoomAction::ReportVideoTime { video_time: 1224, all_time: 1234 });
    let s = room_step(s.phase, ok_reply());
    assert_eq!(s.action, RoomAction::Wait { seconds: 10 });
    let s = room_step(s.phase, RoomEvent::Waited);
    assert_eq!(s.action, RoomAction::GetVideoTime { video_time: 1229, all_time: 1234 });
    // not finished yet: report, pause, ask again
    let s = room_step(s.phase, poll_reply(0));
    assert_eq!(s.finish_flag, Some(0));
    assert_eq!(s.action, RoomAction::ReportVideoTime { video_time: 1224, all_time: 1234 });
    let s = room_step(s.phase, ok_reply());
    assert_eq!(s.action, RoomAction::Wait { seconds: 10 });
    let s = room_step(s.phase, RoomEvent::Waited);
    assert_eq!(s.phase, RoomPhase::Polling { all_time: 1234 });
    assert_eq!(s.action, RoomAction::GetVideoTime { video_time: 1229, all_time: 1234 });
    // finished: upload
    let s = room_step(s.phase, poll_reply(1));
    assert_eq!(s.action, RoomAction::Upload);
    let s = room_step(s.phase, reply("{\"status\":10000,\"url\":\"https://f/x\"}"));
    assert_eq!(s.phase, RoomPhase::Finished);
    assert_eq!(s.action, RoomAction::Done { file_url: "https://f/x".to_string() });
}

#[test]
fn a_failed_check_stops_at_its_stage() {
    let s = room_step(RoomPhase::Participating, RoomEvent::Reply(Err("down".to_string())));
    assert_eq!(s.phase, RoomPhase::Aborted);
    assert_eq!(
        s.action,
        RoomAction::Abort(RoomFailure::Check {
            stage: CheckStage::Participate,
            failure: StatusFailure::RequestFailed("down".to_string()),
        })
    );
    let s = room_step(
        RoomPhase::WatchReport { all_time: 100 },
        reply("{\"status\":3}"),
    );
    assert_eq!(
        s.action,
        RoomAction::Abort(RoomFailure::Check {
            stage: CheckStage::VideoTime,
            failure: StatusFailure::NotSuccess("{\"status\":3}".to_string()),
        })
    );
}

#[test]
fn course_info_without_video_stops() {
    let s = room_step(
        RoomPhase::ReadingCourseInfo,
        RoomEvent::CourseInfo(object(vec![("status", text("10000")), ("courseInfo", object(vec![]))])),
    );
    assert_eq!(s.phase, RoomPhase::Aborted);
    assert_eq!(s.action, RoomAction::Abort(RoomFailure::CourseInfo(CourseInfoFailure::NoVideoUrl)));
}

#[test]
fn duration_failure_and_poll_failures_stop() {
    let s = room_step(RoomPhase::ProbingDuration, RoomEvent::Duration(Err("no range".to_string())));
    assert_eq!(s.action, RoomAction::Abort(RoomFailure::Duration("no range".to_string())));
    let s = room_step(
        RoomPhase::Polling { all_time: 5 },
        reply("oops"),
    );
    assert_eq!(s.action, RoomAction::Abort(RoomFailure::PollNotJson("oops".to_string())));
    let s = room_step(RoomPhase::Uploading, RoomEvent::Reply(Err("io".to_string())));
    assert_eq!(s.action, RoomAction::Abort(RoomFailure::Upload(UploadFailure::RequestFailed("io".to_string()))));
}

#[test]
fn short_videos_report_negative_times() {
    let s = room_step(RoomPhase::ProbingDuration, RoomEvent::Duration(Ok(4_999)));
    assert_eq!(s.phase, RoomPhase::FirstPause { all_time: 4 });
    let s = room_step(RoomPhase::LongPause { all_time: 4 }, RoomEvent::Waited);
    assert_eq!(s.action, RoomAction::ReportVideoTime { video_time: -6, all_time: 4 });
}
