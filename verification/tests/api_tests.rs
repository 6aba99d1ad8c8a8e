use gdyx_study::api::{
    check_status_10000, get_course_info_request, get_course_tag_and_clockin_record_request,
    get_video_time_request, http_outcome, join_room_request, login_request, poll_outcome,
    progress_request, put_user_participate_room_request, upload_outcome, video_time_request,
    FieldValue, HttpFailure, Method, PollOutcome, StatusFailure, UploadFailure,
    GET_COURSE_INFO_URL, GET_VIDEO_TIME_URL, JOIN_ROOM_URL, LOGIN_URL, PROGRESS_URL,
    PUT_USER_PARTICIPATE_ROOM_URL, VIDEO_TIME_URL, GET_COURSE_TAG_AND_CLOCKIN_RECORD_URL,
};
use gdyx_study::json::Json;

fn object(fields: Vec<(&str, Json)>) -> Json {
    Json::Object(fields.into_iter().map(|(k, v)| (k.to_string(), v)).collect())
}

fn text(s: &str) -> Json {
    Json::Str(s.to_string())
}

fn body(text: &str) -> Result<String, String> {
    Ok(text.to_string())
}

fn failed(message: &str) -> Result<String, String> {
    Err(message.to_string())
}

fn pairs(q: &[(String, String)]) -> Vec<(&str, &str)> {
    q.iter().map(|(k, v)| (k.as_str(), v.as_str())).collect()
}

#[test]
fn login_posts_account_and_password() {
    let r = login_request(LOGIN_URL, "alice", "secret");
    assert_eq!(r.method, Method::Post);
    assert_eq!(r.url, LOGIN_URL);
    assert!(r.query.is_empty());
    assert_eq!(
        r.body,
        Some(vec![
            ("accountName".to_string(), FieldValue::Text("alice".to_string())),
            ("password".to_string(), FieldValue::Text("secret".to_string())),
        ])
    );
}

#[test]
fn progress_posts_first_page_of_window() {
    let r = progress_request(PROGRESS_URL, "u1", 1_704_067_200, 1_718_000_000);
    assert_eq!(r.method, Method::Post);
    assert_eq!(r.url, PROGRESS_URL);
    assert_eq!(
        r.body,
        Some(vec![
            ("state".to_string(), FieldValue::Text(String::new())),
            ("filter".to_string(), FieldValue::Text(String::new())),
            ("pageNo".to_string(), FieldValue::Int(0)),
            ("pageSize".to_string(), FieldValue::Int(100)),
            ("userId".to_string(), FieldValue::Text("u1".to_string())),
            ("startTime".to_string(), FieldValue::Int(1_704_067_200)),
            ("endTime".to_string(), FieldValue::Int(1_718_000_000)),
        ])
    );
}

#[test]
fn participate_and_join_post_ids() {
    let r = put_user_participate_room_request("u1", "r9");
    assert_eq!((r.method, r.url.as_str()), (Method::Post, PUT_USER_PARTICIPATE_ROOM_URL));
    assert_eq!(
        r.body,
        Some(vec![
            ("userId".to_string(), FieldValue::Text("u1".to_string())),
            ("roomId".to_string(), FieldValue::Text("r9".to_string())),
        ])
    );
    let j = join_room_request("u1", "r9", "2024-06-10 08:00:00");
    assert_eq!((j.method, j.url.as_str()), (Method::Post, JOIN_ROOM_URL));
    assert_eq!(
        j.body,
        Some(vec![
            ("userId".to_string(), FieldValue::Text("u1".to_string())),
            ("roomId".to_string(), FieldValue::Text("r9".to_string())),
            ("startTime".to_string(), FieldValue::Text("2024-06-10 08:00:00".to_string())),
            ("anonymity".to_string(), FieldValue::Bool(false)),
        ])
    );
}

#[test]
fn room_queries_carry_room_then_user() {
    let c = get_course_info_request("r9", "u1");
    assert_eq!((c.method, c.url.as_str()), (Method::Get, GET_COURSE_INFO_URL));
    assert_eq!(pairs(&c.query), vec![("roomId", "r9"), ("userId", "u1")]);
    assert_eq!(c.body, None);
    let t = get_course_tag_and_clockin_record_request("r9", "u1");
    assert_eq!(t.url, GET_COURSE_TAG_AND_CLOCKIN_RECORD_URL);
    assert_eq!(pairs(&t.query), vec![("roomId", "r9"), ("userId", "u1")]);
}

#[test]
fn watch_time_queries_write_times_in_decimal() {
    let g = get_video_time_request("r9", "u1", 10, 1234);
    assert_eq!((g.method, g.url.as_str()), (Method::Get, GET_VIDEO_TIME_URL));
    assert_eq!(
        pairs(&g.query),
        vec![("roomId", "r9"), ("userId", "u1"), ("videoTime", "10"), ("allTime", "1234")]
    );
    let v = video_time_request("r9", "u1", -7, 3);
    assert_eq!(v.url, VIDEO_TIME_URL);
    assert_eq!(
        pairs(&v.query),
        vec![("roomId", "r9"), ("userId", "u1"), ("videoTime", "-7"), ("allTime", "3")]
    );
}

#[test]
fn http_outcome_keeps_only_2xx_bodies() {
    assert_eq!(http_outcome(200, "ok".to_string()), Ok("ok".to_string()));
    assert_eq!(http_outcome(299, "ok".to_string()), Ok("ok".to_string()));
    assert_eq!(
        http_outcome(199, "x".to_string()),
        Err(HttpFailure { status: 199, body: "x".to_string() })
    );
    assert_eq!(
        http_outcome(404, "nf".to_string()),
        Err(HttpFailure { status: 404, body: "nf".to_string() })
    );
}

#[test]
fn check_status_sorts_out_every_failure() {
    assert_eq!(
        check_status_10000(failed("timeout")),
        Err(StatusFailure::RequestFailed("timeout".to_string()))
    );
    assert_eq!(
        check_status_10000(body("<html>")),
        Err(StatusFailure::NotJson("<html>".to_string()))
    );
    assert_eq!(
        check_status_10000(body("{\"status\":1}")),
        Err(StatusFailure::NotSuccess("{\"status\":1}".to_string()))
    );
    assert_eq!(
        check_status_10000(body("{\"status\":10000.0}")),
        Err(StatusFailure::NotSuccess("{\"status\":10000.0}".to_string()))
    );
    assert_eq!(
        check_status_10000(body("{\"status\":\"10000\"}")),
        Ok(object(vec![("status", text("10000"))]))
    );
    assert_eq!(
        check_status_10000(body(" {\"status\": 10000, \"data\": [1, null]} ")),
        Ok(object(vec![
            ("data", Json::Array(vec![Json::Number("1".to_string()), Json::Null])),
            ("status", Json::Number("10000".to_string())),
        ]))
    );
}

#[test]
fn poll_is_finished_only_with_status_and_flag() {
    assert_eq!(poll_outcome(body("{\"status\":10000,\"isFinish\":1}")), PollOutcome::Finished);
    assert_eq!(poll_outcome(body("{\"status\":\"10000\",\"isFinish\":1}")), PollOutcome::Finished);
    assert_eq!(poll_outcome(body("{\"status\":10000,\"isFinish\":0}")), PollOutcome::Unfinished(0));
    assert_eq!(poll_outcome(body("{\"status\":10000,\"isFinish\":\"1\"}")), PollOutcome::Unfinished(0));
    assert_eq!(poll_outcome(body("{\"status\":10000}")), PollOutcome::Unfinished(0));
    assert_eq!(poll_outcome(body("{\"status\":1,\"isFinish\":1}")), PollOutcome::Unfinished(1));
    assert_eq!(poll_outcome(body("{\"status\":10000,\"isFinish\":-3}")), PollOutcome::Unfinished(-3));
    assert_eq!(poll_outcome(body("b")), PollOutcome::NotJson("b".to_string()));
    assert_eq!(poll_outcome(failed("f")), PollOutcome::RequestFailed("f".to_string()));
}

#[test]
fn upload_gives_back_the_url() {
    assert_eq!(
        upload_outcome(body("{\"status\":\"10000\",\"url\":\"https://files/x.docx\"}")),
        Ok("https://files/x.docx".to_string())
    );
    assert_eq!(
        upload_outcome(body("{\"status\":10000}")),
        Err(UploadFailure::MissingUrl("{\"status\":10000}".to_string()))
    );
    assert_eq!(
        upload_outcome(body("{\"status\":500,\"url\":\"u\"}")),
        Err(UploadFailure::Rejected("{\"status\":500,\"url\":\"u\"}".to_string()))
    );
    assert!(matches!(upload_outcome(body("bad json")), Err(UploadFailure::RequestFailed(_))));
    assert_eq!(
        upload_outcome(failed("HTTP 500")),
        Err(UploadFailure::RequestFailed("HTTP 500".to_string()))
    );
}
