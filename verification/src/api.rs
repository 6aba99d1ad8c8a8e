use vstd::prelude::*;

use crate::json::{
    json_error_text, json_get, json_of_text, member_str, member_text, parse_json, status_is_10000,
    status_is_success, Json, JsonView,
};
use crate::text::decimal_string;
use crate::text::decimal_text;

verus! {

/// Login endpoint.
pub const LOGIN_URL: &'static str = "https://gdyx.bnu.edu.cn/api-web/manage/login";
/// Learning-progress endpoint.
pub const PROGRESS_URL: &'static str = "https://gdyx.bnu.edu.cn/api-web/stats/user/learning/dashboard/progress";
/// Endpoint that records a learner's participation in a room.
pub const PUT_USER_PARTICIPATE_ROOM_URL: &'static str = "https://gdyx.bnu.edu.cn/api-web/recordEvaluate/putUserParticipateRoom";
/// Endpoint that describes a room's course.
pub const GET_COURSE_INFO_URL: &'static str = "https://gdyx.bnu.edu.cn/api-web/evaluation/getCourseInfo";
/// Endpoint that enters a room.
pub const JOIN_ROOM_URL: &'static str = "https://gdyx.bnu.edu.cn/api-web/evaluation/joinRoom";
/// Endpoint that reads a room's tags and clock-in record.
pub const GET_COURSE_TAG_AND_CLOCKIN_RECORD_URL: &'static str = "https://gdyx.bnu.edu.cn/api-web/evaluation/getCourseTagAndClockinRecord";
/// Endpoint that reports watching time and tells whether the room is finished.
pub const GET_VIDEO_TIME_URL: &'static str = "https://gdyx.bnu.edu.cn/api-web/evaluation/getVideoTime";
/// Endpoint that reports watching time.
pub const VIDEO_TIME_URL: &'static str = "https://gdyx.bnu.edu.cn/api-web/evaluation/videoTime";
/// Endpoint that takes the uploaded write-up.
pub const UPLOAD_PUBLIC_FILE_URL: &'static str = "https://gdyx.bnu.edu.cn/api-web/upload/uploadPublicFile";

/// HTTP method of a request.
#[derive(Clone, Copy, Debug, PartialEq, Eq, Structural)]
pub enum Method {
    Get,
    Post,
}

/// A value in a JSON request body.
#[derive(Debug, Clone, PartialEq, Eq)]
pub enum FieldValue {
    Text(String),
    Int(i64),
    Bool(bool),
}

/// What a request-body value stands for.
pub enum FieldView {
    Text(Seq<char>),
    Int(i64),
    Bool(bool),
}

impl View for FieldValue {
    type V = FieldView;

    open spec fn view(&self) -> FieldView {
        match self {
            FieldValue::Text(s) => FieldView::Text(s@),
            FieldValue::Int(n) => FieldView::Int(*n),
            FieldValue::Bool(b) => FieldView::Bool(*b),
        }
    }
}

/// A request to send: method, address, query parameters in order, and an
/// optional JSON object body whose members are listed in order.
#[derive(Debug, Clone, PartialEq, Eq)]
pub struct Request {
    pub method: Method,
    pub url: String,
    pub query: Vec<(String, String)>,
    pub body: Option<Vec<(String, FieldValue)>>,
}

/// What a request stands for.
pub struct RequestView {
    pub method: Method,
    pub url: Seq<char>,
    pub query: Seq<(Seq<char>, Seq<char>)>,
    pub body: Option<Seq<(Seq<char>, FieldView)>>,
}

/// Query parameters read as texts.
pub open spec fn query_view(q: Seq<(String, String)>) -> Seq<(Seq<char>, Seq<char>)> {
    q.map_values(|p: (String, String)| (p.0@, p.1@))
}

/// Body members read as texts and values.
pub open spec fn body_view(b: Seq<(String, FieldValue)>) -> Seq<(Seq<char>, FieldView)> {
    b.map_values(|p: (String, FieldValue)| (p.0@, p.1@))
}

impl View for Request {
    type V = RequestView;

    open spec fn view(&self) -> RequestView {
        RequestView {
            method: self.method,
            url: self.url@,
            query: query_view(self.query@),
            body: match self.body {
                Some(b) => Some(body_view(b@)),
                None => None,
            },
        }
    }
}

fn text_field(name: &str, value: &str) -> (field: (String, FieldValue))
    ensures
        field.0@ == name@,
        field.1@ == FieldView::Text(value@),
{
    (name.to_owned(), FieldValue::Text(value.to_owned()))
}

fn query_pair(name: &str, value: &str) -> (pair: (String, String))
    ensures
        pair.0@ == name@,
        pair.1@ == value@,
{
    (name.to_owned(), value.to_owned())
}

/// The login request: a POST to `url` of `{accountName, password}`.
pub fn login_request(url: &str, username: &str, password: &str) -> (req: Request)
    ensures
        req@ == (RequestView {
            method: Method::Post,
            url: url@,
            query: seq![],
            body: Some(seq![
                ("accountName"@, FieldView::Text(username@)),
                ("password"@, FieldView::Text(password@)),
            ]),
        }),
{
    let mut body: Vec<(String, FieldValue)> = Vec::new();
    body.push(text_field("accountName", username));
    body.push(text_field("password", password));
    let req = Request { method: Method::Post, url: url.to_owned(), query: Vec::new(), body: Some(body) };
    assert(req@.query =~= seq![]);
    assert(req@.body->0 =~= seq![
        ("accountName"@, FieldView::Text(username@)),
        ("password"@, FieldView::Text(password@)),
    ]);
    req
}

/// The learning-progress request: a POST to `url` of the first page (up to
/// 100 rooms) of the learner's rooms between `start_time` and `end_time`.
pub fn progress_request(url: &str, user_id: &str, start_time: i64, end_time: i64) -> (req: Request)
    ensures
        req@ == (RequestView {
            method: Method::Post,
            url: url@,
            query: seq![],
            body: Some(seq![
                ("state"@, FieldView::Text(""@)),
                ("filter"@, FieldView::Text(""@)),
                ("pageNo"@, FieldView::Int(0)),
                ("pageSize"@, FieldView::Int(100)),
                ("userId"@, FieldView::Text(user_id@)),
                ("startTime"@, FieldView::Int(start_time)),
                ("endTime"@, FieldView::Int(end_time)),
            ]),
        }),
{
    let mut body: Vec<(String, FieldValue)> = Vec::new();
    body.push(text_field("state", ""));
    body.push(text_field("filter", ""));
    body.push(("pageNo".to_owned(), FieldValue::Int(0)));
    body.push(("pageSize".to_owned(), FieldValue::Int(100)));
    body.push(text_field("userId", user_id));
    body.push(("startTime".to_owned(), FieldValue::Int(start_time)));
    body.push(("endTime".to_owned(), FieldValue::Int(end_time)));
    let req = Request { method: Method::Post, url: url.to_owned(), query: Vec::new(), body: Some(body) };
    assert(req@.query =~= seq![]);
    assert(req@.body->0 =~= seq![
        ("state"@, FieldView::Text(""@)),
        ("filter"@, FieldView::Text(""@)),
        ("pageNo"@, FieldView::Int(0)),
        ("pageSize"@, FieldView::Int(100)),
        ("userId"@, FieldView::Text(user_id@)),
        ("startTime"@, FieldView::Int(start_time)),
        ("endTime"@, FieldView::Int(end_time)),
    ]);
    req
}

/// The request that records the learner `user_id` as taking part in room
/// `room_id`: a POST of `{userId, roomId}`.
pub fn put_user_participate_room_request(user_id: &str, room_id: &str) -> (req: Request)
    ensures
        req@ == (RequestView {
            method: Method::Post,
            url: PUT_USER_PARTICIPATE_ROOM_URL@,
            query: seq![],
            body: Some(seq![
                ("userId"@, FieldView::Text(user_id@)),
                ("roomId"@, FieldView::Text(room_id@)),
            ]),
        }),
{
    let mut body: Vec<(String, FieldValue)> = Vec::new();
    body.push(text_field("userId", user_id));
    body.push(text_field("roomId", room_id));
    let req = Request {
        method: Method::Post,
        url: PUT_USER_PARTICIPATE_ROOM_URL.to_owned(),
        query: Vec::new(),
        body: Some(body),
    };
    assert(req@.query =~= seq![]);
    assert(req@.body->0 =~= seq![
        ("userId"@, FieldView::Text(user_id@)),
        ("roomId"@, FieldView::Text(room_id@)),
    ]);
    req
}

/// The request that enters room `room_id` at local time `start_time`: a POST
/// of `{userId, roomId, startTime, anonymity: false}`.
pub fn join_room_request(user_id: &str, room_id: &str, start_time: &str) -> (req: Request)
    ensures
        req@ == (RequestView {
            method: Method::Post,
            url: JOIN_ROOM_URL@,
            query: seq![],
            body: Some(seq![
                ("userId"@, FieldView::Text(user_id@)),
                ("roomId"@, FieldView::Text(room_id@)),
                ("startTime"@, FieldView::Text(start_time@)),
                ("anonymity"@, FieldView::Bool(false)),
            ]),
        }),
{
    let mut body: Vec<(String, FieldValue)> = Vec::new();
    body.push(text_field("userId", user_id));
    body.push(text_field("roomId", room_id));
    body.push(text_field("startTime", start_time));
    body.push(("anonymity".to_owned(), FieldValue::Bool(false)));
    let req = Request { method: Method::Post, url: JOIN_ROOM_URL.to_owned(), query: Vec::new(), body: Some(body) };
    assert(req@.query =~= seq![]);
    assert(req@.body->0 =~= seq![
        ("userId"@, FieldView::Text(user_id@)),
        ("roomId"@, FieldView::Text(room_id@)),
        ("startTime"@, FieldView::Text(start_time@)),
        ("anonymity"@, FieldView::Bool(false)),
    ]);
    req
}

fn room_query_request(url: &str, room_id: &str, user_id: &str) -> (req: Request)
    ensures
        req@ == (RequestView {
            method: Method::Get,
            url: url@,
            query: seq![("roomId"@, room_id@), ("userId"@, user_id@)],
            body: None,
        }),
{
    let mut query: Vec<(String, String)> = Vec::new();
    query.push(query_pair("roomId", room_id));
    query.push(query_pair("userId", user_id));
    let req = Request { method: Method::Get, url: url.to_owned(), query, body: None };
    assert(req@.query =~= seq![("roomId"@, room_id@), ("userId"@, user_id@)]);
    req
}

/// The request for the course of room `room_id`: a GET with `roomId` and
/// `userId` in the query.
pub fn get_course_info_request(room_id: &str, user_id: &str) -> (req: Request)
    ensures
        req@ == (RequestView {
            method: Method::Get,
            url: GET_COURSE_INFO_URL@,
            query: seq![("roomId"@, room_id@), ("userId"@, user_id@)],
            body: None,
        }),
{
    room_query_request(GET_COURSE_INFO_URL, room_id, user_id)
}

/// The request for the tags and clock-in record of room `room_id`: a GET
/// with `roomId` and `userId` in the query.
pub fn get_course_tag_and_clockin_record_request(room_id: &str, user_id: &str) -> (req: Request)
    ensures
        req@ == (RequestView {
            method: Method::Get,
            url: GET_COURSE_TAG_AND_CLOCKIN_RECORD_URL@,
            query: seq![("roomId"@, room_id@), ("userId"@, user_id@)],
            body: None,
        }),
{
    room_query_request(GET_COURSE_TAG_AND_CLOCKIN_RECORD_URL, room_id, user_id)
}

fn watch_time_request(url: &str, room_id: &str, user_id: &str, video_time: i64, all_time: i64) -> (req: Request)
    ensures
        req@ == (RequestView {
            method: Method::Get,
            url: url@,
            query: seq![
                ("roomId"@, room_id@),
                ("userId"@, user_id@),
                ("videoTime"@, decimal_text(video_time as int)),
                ("allTime"@, decimal_text(all_time as int)),
            ],
            body: None,
        }),
{
    let mut query: Vec<(String, String)> = Vec::new();
    query.push(query_pair("roomId", room_id));
    query.push(query_pair("userId", user_id));
    query.push(("videoTime".to_owned(), decimal_string(video_time)));
    query.push(("allTime".to_owned(), decimal_string(all_time)));
    let req = Request { method: Method::Get, url: url.to_owned(), query, body: None };
    assert(req@.query =~= seq![
        ("roomId"@, room_id@),
        ("userId"@, user_id@),
        ("videoTime"@, decimal_text(video_time as int)),
        ("allTime"@, decimal_text(all_time as int)),
    ]);
    req
}

/// The request that reports `video_time` seconds watched of `all_time` in room
/// `room_id` and asks whether the room is finished: a GET with `roomId`,
/// `userId`, `videoTime` and `allTime` (in decimal) in the query.
pub fn get_video_time_request(room_id: &str, user_id: &str, video_time: i64, all_time: i64) -> (req: Request)
    ensures
        req@ == (RequestView {
            method: Method::Get,
            url: GET_VIDEO_TIME_URL@,
            query: seq![
                ("roomId"@, room_id@),
                ("userId"@, user_id@),
                ("videoTime"@, decimal_text(video_time as int)),
                ("allTime"@, decimal_text(all_time as int)),
            ],
            body: None,
        }),
{
    watch_time_request(GET_VIDEO_TIME_URL, room_id, user_id, video_time, all_time)
}

/// The request that reports `video_time` seconds watched of `all_time` in room
/// `room_id`: a GET with `roomId`, `userId`, `videoTime` and `allTime` (in
/// decimal) in the query.
pub fn video_time_request(room_id: &str, user_id: &str, video_time: i64, all_time: i64) -> (req: Request)
    ensures
        req@ == (RequestView {
            method: Method::Get,
            url: VIDEO_TIME_URL@,
            query: seq![
                ("roomId"@, room_id@),
                ("userId"@, user_id@),
                ("videoTime"@, decimal_text(video_time as int)),
                ("allTime"@, decimal_text(all_time as int)),
            ],
            body: None,
        }),
{
    watch_time_request(VIDEO_TIME_URL, room_id, user_id, video_time, all_time)
}

/// An HTTP answer whose status is not a success (outside 200..=299).
#[derive(Debug, Clone, PartialEq, Eq)]
pub struct HttpFailure {
    pub status: u16,
    pub body: String,
}

/// Whether an HTTP status code marks success.
pub open spec fn http_success(status: u16) -> bool {
    200 <= status <= 299
}

/// Keeps the body of a successful HTTP answer; any other status is a
/// failure that carries the status and the body.
pub fn http_outcome(status: u16, body: String) -> (outcome: Result<String, HttpFailure>)
    ensures
        http_success(status) ==> outcome == Ok::<String, HttpFailure>(body),
        !http_success(status) ==> outcome == Err::<String, HttpFailure>(HttpFailure { status, body }),
{
    if 200 <= status && status <= 299 {
        Ok(body)
    } else {
        Err(HttpFailure { status, body })
    }
}

/// Why a reply was not the platform's success.
#[derive(Debug, Clone, PartialEq, Eq)]
pub enum StatusFailure {
    /// The request failed; the error's text.
    RequestFailed(String),
    /// The body, which is not JSON.
    NotJson(String),
    /// The body, whose `status` is not 10000.
    NotSuccess(String),
}

/// Accepts the outcome of a request only where its body is JSON whose
/// `status` is the string `"10000"` or the integer 10000, and hands back that
/// JSON; the body is read with [`parse_json`].
pub fn check_status_10000(result: Result<String, String>) -> (checked: Result<Json, StatusFailure>)
    ensures
        match result {
            Err(message) => checked == Err::<Json, StatusFailure>(StatusFailure::RequestFailed(message)),
            Ok(body) => match json_of_text(body@) {
                None => checked == Err::<Json, StatusFailure>(StatusFailure::NotJson(body)),
                Some(v) => if status_is_success(v) {
                    checked matches Ok(j) && j@ == v
                } else {
                    checked == Err::<Json, StatusFailure>(StatusFailure::NotSuccess(body))
                },
            },
        },
{
    match result {
        Err(message) => Err(StatusFailure::RequestFailed(message)),
        Ok(body) => match parse_json(body.as_str()) {
            Err(_) => Err(StatusFailure::NotJson(body)),
            Ok(v) => {
                if status_is_10000(&v) {
                    Ok(v)
                } else {
                    Err(StatusFailure::NotSuccess(body))
                }
            },
        },
    }
}

/// The `isFinish` member of a reply where it is an integer, 0 otherwise.
pub open spec fn finish_flag(v: JsonView) -> i64 {
    match crate::json::json_int(json_get(v, "isFinish"@)) {
        Some(n) => n,
        None => 0,
    }
}

/// What a reply to the finishing question says.
#[derive(Debug, Clone, PartialEq, Eq)]
pub enum PollOutcome {
    /// The request failed; the error's text.
    RequestFailed(String),
    /// The body, which is not JSON.
    NotJson(String),
    /// The room is finished: `status` is 10000 and `isFinish` is 1.
    Finished,
    /// The room is not finished yet; the `isFinish` that was read.
    Unfinished(i64),
}

/// Reads the outcome of the finishing question: finished exactly where the
/// body is JSON whose `status` is 10000 and whose `isFinish` is 1.
pub fn poll_outcome(result: Result<String, String>) -> (outcome: PollOutcome)
    ensures
        match result {
            Err(message) => outcome == PollOutcome::RequestFailed(message),
            Ok(body) => match json_of_text(body@) {
                None => outcome == PollOutcome::NotJson(body),
                Some(v) => if status_is_success(v) && finish_flag(v) == 1 {
                    outcome == PollOutcome::Finished
                } else {
                    outcome == PollOutcome::Unfinished(finish_flag(v))
                },
            },
        },
{
    match result {
        Err(message) => PollOutcome::RequestFailed(message),
        Ok(body) => match parse_json(body.as_str()) {
            Err(_) => PollOutcome::NotJson(body),
            Ok(v) => {
                let status_ok = status_is_10000(&v);
                let is_finish = match v.get("isFinish") {
                    Some(f) => match f.as_i64() {
                        Some(n) => n,
                        None => 0,
                    },
                    None => 0,
                };
                if status_ok && is_finish == 1 {
                    PollOutcome::Finished
                } else {
                    PollOutcome::Unfinished(is_finish)
                }
            },
        },
    }
}

/// Why an upload did not give back the file's address.
#[derive(Debug, Clone, PartialEq, Eq)]
pub enum UploadFailure {
    /// The request failed, or its body is not JSON; the error's text.
    RequestFailed(String),
    /// The body, whose `status` is not 10000.
    Rejected(String),
    /// The body, which has no string `url`.
    MissingUrl(String),
}

/// Reads the outcome of an upload: the address in the `url` member, where
/// the body is JSON with `status` 10000 and a string `url`.
pub fn upload_outcome(result: Result<String, String>) -> (outcome: Result<String, UploadFailure>)
    ensures
        match result {
            Err(message) => outcome == Err::<String, UploadFailure>(UploadFailure::RequestFailed(message)),
            Ok(body) => match json_of_text(body@) {
                None => outcome matches Err(UploadFailure::RequestFailed(_)),
                Some(v) => if !status_is_success(v) {
                    outcome == Err::<String, UploadFailure>(UploadFailure::Rejected(body))
                } else {
                    match member_text(v, "url"@) {
                        Some(u) => outcome matches Ok(s) && s@ == u,
                        None => outcome == Err::<String, UploadFailure>(UploadFailure::MissingUrl(body)),
                    }
                },
            },
        },
{
    match result {
        Err(message) => Err(UploadFailure::RequestFailed(message)),
        Ok(body) => match parse_json(body.as_str()) {
            Err(e) => Err(UploadFailure::RequestFailed(json_error_text(&e))),
            Ok(v) => {
                if !status_is_10000(&v) {
                    return Err(UploadFailure::Rejected(body));
                }
                match member_str(&v, "url") {
                    Some(u) => Ok(u.to_owned()),
                    None => Err(UploadFailure::MissingUrl(body)),
                }
            },
        },
    }
}

} // verus!
