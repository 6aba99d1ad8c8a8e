use vstd::prelude::*;

use crate::json::{json_get, member_str, member_text, Json, JsonView};
use crate::text::str_equal;
use crate::time_utils::{days_before_year, days_since_epoch_to_year, year_holds_day, year_start_timestamp};

verus! {

/// The login reply.
#[derive(Debug, PartialEq, Eq)]
pub struct LoginResponse {
    pub status: Option<i32>,
    pub warn: Option<String>,
    pub data: Option<Json>,
}

/// The learner's id in a login reply: the string `userId` of its `data`.
pub open spec fn login_user_id(resp: LoginResponse) -> Option<Seq<char>> {
    match resp.data {
        Some(d) => member_text(d@, "userId"@),
        None => None,
    }
}

/// The learner's id in a login reply, where its `data` holds a string `userId`.
pub fn user_id_of(resp: &LoginResponse) -> (id: Option<String>)
    ensures
        match id {
            Some(s) => login_user_id(*resp) == Some(s@),
            None => login_user_id(*resp) is None,
        },
{
    match &resp.data {
        Some(d) => match member_str(d, "userId") {
            Some(s) => Some(s.to_owned()),
            None => None,
        },
        None => None,
    }
}

/// The day number of a timestamp, with division rounding toward zero.
pub open spec fn day_of_timestamp(now: int) -> int {
    if now >= 0 { now / 86400 } else { -((-now) / 86400) }
}

/// The time span that progress is queried for.
#[derive(Debug, Clone, PartialEq, Eq)]
pub struct QueryWindow {
    /// The year that holds the current day.
    pub year: i64,
    /// January 1st of that year, 00:00 UTC, in seconds since the epoch.
    pub start_time: i64,
    /// The current time, in seconds since the epoch.
    pub end_time: i64,
}

/// The span from the start of the current year to `now` (seconds since the
/// epoch).
pub fn query_window(now: i64) -> (w: QueryWindow)
    ensures
        year_holds_day(day_of_timestamp(now as int), w.year as int),
        w.start_time == days_before_year(w.year as int) * 86400,
        w.end_time == now,
{
    let year = days_since_epoch_to_year(now / 86400);
    proof {
        lemma_days_before_year_bound(year as int);
    }
    let start_time = year_start_timestamp(year);
    QueryWindow { year, start_time, end_time: now }
}

/// What chrono writes for the UTC time `timestamp` (seconds since the epoch)
/// under the format `pattern`; `None` where chrono has no date for it.
pub uninterp spec fn utc_text(timestamp: i64, pattern: Seq<char>) -> Option<Seq<char>>;

/// Writes the UTC time `timestamp` with `chrono::DateTime::from_timestamp`
/// and `format(pattern)`. Trusted: the text is what chrono makes of the two
/// arguments (named `utc_text`), `None` where `from_timestamp` has no date;
/// which times have one is not stated. The two patterns admitted hold only
/// specifiers that chrono knows, so the writing does not fail.
#[verifier::external_body]
fn format_utc(timestamp: i64, pattern: &str) -> (text: Option<String>)
    requires
        pattern@ == "%Y-%m-%d"@ || pattern@ == "%Y-%m-%d %H:%M:%S"@,
    ensures
        match text {
            Some(t) => utc_text(timestamp, pattern@) == Some(t@),
            None => utc_text(timestamp, pattern@) is None,
        },
{
    chrono::DateTime::from_timestamp(timestamp, 0).map(|dt| dt.format(pattern).to_string())
}

/// The query window as the client shows it: its start as a UTC day
/// (`%Y-%m-%d`) and its end as a UTC time to the second
/// (`%Y-%m-%d %H:%M:%S`), each empty where chrono has no date for it.
pub fn window_texts(window: &QueryWindow) -> (texts: (String, String))
    ensures
        texts.0@ == text_or_empty(utc_text(window.start_time, "%Y-%m-%d"@)),
        texts.1@ == text_or_empty(utc_text(window.end_time, "%Y-%m-%d %H:%M:%S"@)),
{
    let start = match format_utc(window.start_time, "%Y-%m-%d") {
        Some(t) => t,
        None => String::new(),
    };
    let end = match format_utc(window.end_time, "%Y-%m-%d %H:%M:%S") {
        Some(t) => t,
        None => String::new(),
    };
    (start, end)
}

proof fn lemma_days_before_year_bound(year: int)
    requires
        1970 <= year,
    ensures
        0 <= days_before_year(year) <= 366 * (year - 1970),
    decreases year - 1970,
{
    if year > 1970 {
        lemma_days_before_year_bound(year - 1);
    }
}

/// A room of the progress reply.
#[derive(Debug, Clone, PartialEq, Eq)]
pub struct RoomInfo {
    pub id: String,
    pub name: String,
    pub teacher: String,
    pub rate: String,
}

/// What a room stands for.
pub struct RoomView {
    pub id: Seq<char>,
    pub name: Seq<char>,
    pub teacher: Seq<char>,
    pub rate: Seq<char>,
}

impl View for RoomInfo {
    type V = RoomView;

    open spec fn view(&self) -> RoomView {
        RoomView { id: self.id@, name: self.name@, teacher: self.teacher@, rate: self.rate@ }
    }
}

/// The text of `t`, or the empty text.
pub open spec fn text_or_empty(t: Option<Seq<char>>) -> Seq<char> {
    match t {
        Some(s) => s,
        None => Seq::empty(),
    }
}

/// The room that an entry of `completeRooms` describes: one with a string
/// `roomId`, and `roomName`, `teacher`, `complateRate` where they are strings
/// (empty otherwise).
pub open spec fn room_of_entry(entry: JsonView) -> Option<RoomView> {
    match member_text(entry, "roomId"@) {
        Some(id) => Some(RoomView {
            id,
            name: text_or_empty(member_text(entry, "roomName"@)),
            teacher: text_or_empty(member_text(entry, "teacher"@)),
            rate: text_or_empty(member_text(entry, "complateRate"@)),
        }),
        None => None,
    }
}

/// The rooms of a list of entries, in order, leaving out entries without a
/// string `roomId`.
pub open spec fn rooms_of_entries(entries: Seq<JsonView>) -> Seq<RoomView>
    decreases entries.len(),
{
    if entries.len() == 0 {
        Seq::empty()
    } else {
        let rest = rooms_of_entries(entries.drop_last());
        match room_of_entry(entries.last()) {
            Some(r) => rest.push(r),
            None => rest,
        }
    }
}

/// The rooms of a progress reply: `None` where `completeRooms` is missing,
/// not an array, or empty.
pub open spec fn listed_rooms(progress: JsonView) -> Option<Seq<RoomView>> {
    match json_get(progress, "completeRooms"@) {
        Some(JsonView::Array(items)) => if items.len() > 0 {
            Some(rooms_of_entries(items))
        } else {
            None
        },
        _ => None,
    }
}

fn text_or_empty_of(entry: &Json, key: &str) -> (s: String)
    ensures
        s@ == text_or_empty(member_text(entry@, key@)),
{
    match member_str(entry, key) {
        Some(t) => t.to_owned(),
        None => String::new(),
    }
}

fn room_from_entry(entry: &Json) -> (room: Option<RoomInfo>)
    ensures
        match room {
            Some(r) => room_of_entry(entry@) == Some(r@),
            None => room_of_entry(entry@) is None,
        },
{
    match member_str(entry, "roomId") {
        Some(id) => Some(RoomInfo {
            id: id.to_owned(),
            name: text_or_empty_of(entry, "roomName"),
            teacher: text_or_empty_of(entry, "teacher"),
            rate: text_or_empty_of(entry, "complateRate"),
        }),
        None => None,
    }
}

/// Views of a list of rooms.
pub open spec fn rooms_view(rooms: Seq<RoomInfo>) -> Seq<RoomView> {
    rooms.map_values(|r: RoomInfo| r@)
}

/// The rooms listed in the `completeRooms` member of a progress reply, in
/// order; `None` where that member is missing, not an array, or empty.
pub fn complete_rooms(progress: &Json) -> (rooms: Option<Vec<RoomInfo>>)
    ensures
        match rooms {
            Some(v) => listed_rooms(progress@) == Some(rooms_view(v@)),
            None => listed_rooms(progress@) is None,
        },
{
    let member = match progress.get("completeRooms") {
        Some(m) => m,
        None => return None,
    };
    let items = match member.as_array() {
        Some(items) => items,
        None => return None,
    };
    let ghost entries = match member@ {
        JsonView::Array(e) => e,
        _ => Seq::empty(),
    };
    if items.len() == 0 {
        return None;
    }
    let mut rooms: Vec<RoomInfo> = Vec::new();
    let n = items.len();
    assert(entries.len() == n);
    for i in 0..n
        invariant
            n == items@.len(),
            n == entries.len(),
            forall|k: int| 0 <= k < n ==> #[trigger] entries[k] == items@[k]@,
            rooms_view(rooms@) == rooms_of_entries(entries.subrange(0, i as int)),
    {
        assert(entries.subrange(0, i + 1).drop_last() =~= entries.subrange(0, i as int));
        assert(entries.subrange(0, i + 1).last() == items@[i as int]@);
        match room_from_entry(&items[i]) {
            Some(r) => {
                rooms.push(r);
                assert(rooms_view(rooms@) =~= rooms_of_entries(entries.subrange(0, i + 1)));
            },
            None => {
                assert(rooms_view(rooms@) =~= rooms_of_entries(entries.subrange(0, i + 1)));
            },
        }
    }
    assert(entries.subrange(0, n as int) =~= entries);
    Some(rooms)
}

/// The rooms still to be worked through: those whose completion rate is not
/// `"100.00"`, in order.
pub open spec fn pending_of(rooms: Seq<RoomView>) -> Seq<RoomView>
    decreases rooms.len(),
{
    if rooms.len() == 0 {
        Seq::empty()
    } else {
        let rest = pending_of(rooms.drop_last());
        if rooms.last().rate == "100.00"@ {
            rest
        } else {
            rest.push(rooms.last())
        }
    }
}

fn copy_room(room: &RoomInfo) -> (copy: RoomInfo)
    ensures
        copy@ == room@,
{
    RoomInfo {
        id: room.id.clone(),
        name: room.name.clone(),
        teacher: room.teacher.clone(),
        rate: room.rate.clone(),
    }
}

/// The rooms whose completion rate is not `"100.00"`, in order.
pub fn pending_rooms(rooms: &Vec<RoomInfo>) -> (pending: Vec<RoomInfo>)
    ensures
        rooms_view(pending@) == pending_of(rooms_view(rooms@)),
{
    let mut pending: Vec<RoomInfo> = Vec::new();
    let n = rooms.len();
    for i in 0..n
        invariant
            n == rooms@.len(),
            rooms_view(pending@) == pending_of(rooms_view(rooms@.subrange(0, i as int))),
    {
        assert(rooms_view(rooms@.subrange(0, i + 1)).drop_last() =~= rooms_view(rooms@.subrange(0, i as int)));
        if !str_equal(rooms[i].rate.as_str(), "100.00") {
            pending.push(copy_room(&rooms[i]));
        }
        assert(rooms_view(pending@) =~= pending_of(rooms_view(rooms@.subrange(0, i + 1))));
    }
    assert(rooms@.subrange(0, n as int) =~= rooms@);
    pending
}

/// Why a course description gives no video to watch.
#[derive(Debug, Clone, PartialEq, Eq)]
pub enum CourseInfoFailure {
    /// `status` is not the string `"10000"`; the text of `status` where it is a string.
    BadStatus(Option<String>),
    /// `courseInfo.roomVideoUrl` is missing, not a string, or empty.
    NoVideoUrl,
}

/// The video address of a course description: the string
/// `courseInfo.roomVideoUrl`.
pub open spec fn course_video_url_of(info: JsonView) -> Option<Seq<char>> {
    match json_get(info, "courseInfo"@) {
        Some(c) => member_text(c, "roomVideoUrl"@),
        None => None,
    }
}

/// The room's video address, where the course description has `status`
/// equal to the string `"10000"` and a non-empty string
/// `courseInfo.roomVideoUrl`.
pub fn course_video_url(info: &Json) -> (url: Result<String, CourseInfoFailure>)
    ensures
        member_text(info@, "status"@) != Some("10000"@) ==> (url matches Err(CourseInfoFailure::BadStatus(s))
            && match s {
                Some(t) => member_text(info@, "status"@) == Some(t@),
                None => member_text(info@, "status"@) is None,
            }),
        member_text(info@, "status"@) == Some("10000"@) ==> match course_video_url_of(info@) {
            Some(u) => if u.len() > 0 {
                url matches Ok(s) && s@ == u
            } else {
                url matches Err(CourseInfoFailure::NoVideoUrl)
            },
            None => url matches Err(CourseInfoFailure::NoVideoUrl),
        },
{
    let status = member_str(info, "status");
    let status_ok = match status {
        Some(s) => str_equal(s, "10000"),
        None => false,
    };
    if !status_ok {
        return Err(CourseInfoFailure::BadStatus(
            match status {
                Some(s) => Some(s.to_owned()),
                None => None,
            },
        ));
    }
    let url = match info.get("courseInfo") {
        Some(c) => member_str(c, "roomVideoUrl"),
        None => None,
    };
    match url {
        Some(u) => {
            if u.unicode_len() == 0 {
                Err(CourseInfoFailure::NoVideoUrl)
            } else {
                Ok(u.to_owned())
            }
        },
        None => Err(CourseInfoFailure::NoVideoUrl),
    }
}

/// Law: the rooms still to work through are exactly those whose completion
/// rate is not `"100.00"`: each of them is such a room of the list, each such
/// room of the list is among them, and the order of the list is kept.
pub proof fn law_pending_rooms(rooms: Seq<RoomView>)
    ensures
        forall|i: int| 0 <= i < pending_of(rooms).len() ==>
            (#[trigger] pending_of(rooms)[i]).rate != "100.00"@ && rooms.contains(pending_of(rooms)[i]),
        forall|j: int| 0 <= j < rooms.len() && (#[trigger] rooms[j]).rate != "100.00"@ ==>
            pending_of(rooms).contains(rooms[j]),
        pending_of(rooms).len() <= rooms.len(),
    decreases rooms.len(),
{
    if rooms.len() > 0 {
        let init = rooms.drop_last();
        law_pending_rooms(init);
        let p = pending_of(rooms);
        assert forall|i: int| 0 <= i < p.len() implies
            (#[trigger] p[i]).rate != "100.00"@ && rooms.contains(p[i]) by {
            if i < pending_of(init).len() {
                assert(p[i] == pending_of(init)[i]);
                let k = choose|k: int| 0 <= k < init.len() && init[k] == pending_of(init)[i];
                assert(rooms[k] == init[k]);
            } else {
                assert(p[i] == rooms.last());
                assert(rooms[rooms.len() - 1] == rooms.last());
            }
        }
        assert forall|j: int| 0 <= j < rooms.len() && (#[trigger] rooms[j]).rate != "100.00"@ implies
            p.contains(rooms[j]) by {
            if j < rooms.len() - 1 {
                assert(init[j] == rooms[j]);
                let k = choose|k: int| 0 <= k < pending_of(init).len() && pending_of(init)[k] == init[j];
                assert(p[k] == pending_of(init)[k]);
            } else {
                assert(p[p.len() - 1] == rooms.last());
            }
        }
    }
}

/// Law: the progress query never starts after it ends, for any current time
/// at or after the epoch, and it starts at the beginning of the year that
/// holds that time.
pub proof fn law_query_window_ordered(now: i64, year: i64)
    requires
        now >= 0,
        year_holds_day(day_of_timestamp(now as int), year as int),
    ensures
        days_before_year(year as int) * 86400 <= now,
        year < 2100 ==> now < days_before_year(year + 1) * 86400,
{
    crate::time_utils::law_year_start_not_after(now as int, year as int);
}

/// Law: every room listed comes from an entry of `completeRooms` that has a
/// string `roomId`, and every such entry gives a listed room; no room is made up
/// and none is lost.
pub proof fn law_listed_rooms_from_entries(entries: Seq<JsonView>)
    ensures
        forall|i: int| 0 <= i < rooms_of_entries(entries).len() ==>
            exists|j: int| 0 <= j < entries.len() && room_of_entry(#[trigger] entries[j]) == Some(
                #[trigger] rooms_of_entries(entries)[i]),
        forall|j: int| 0 <= j < entries.len() && (#[trigger] room_of_entry(entries[j])) is Some ==>
            rooms_of_entries(entries).contains(room_of_entry(entries[j])->0),
        rooms_of_entries(entries).len() <= entries.len(),
    decreases entries.len(),
{
    if entries.len() > 0 {
        let init = entries.drop_last();
        law_listed_rooms_from_entries(init);
        let r = rooms_of_entries(entries);
        assert forall|i: int| 0 <= i < r.len() implies
            exists|j: int| 0 <= j < entries.len() && room_of_entry(#[trigger] entries[j]) == Some(#[trigger] r[i]) by {
            if i < rooms_of_entries(init).len() {
                assert(r[i] == rooms_of_entries(init)[i]);
                let j = choose|j: int| 0 <= j < init.len() && room_of_entry(#[trigger] init[j]) == Some(rooms_of_entries(init)[i]);
                assert(entries[j] == init[j]);
            } else {
                let j = entries.len() - 1;
                assert(entries[j] == entries.last());
            }
        }
        assert forall|j: int| 0 <= j < entries.len() && (#[trigger] room_of_entry(entries[j])) is Some implies
            r.contains(room_of_entry(entries[j])->0) by {
            if j < entries.len() - 1 {
                assert(init[j] == entries[j]);
                let k = choose|k: int| 0 <= k < rooms_of_entries(init).len()
                    && rooms_of_entries(init)[k] == room_of_entry(init[j])->0;
                assert(r[k] == rooms_of_entries(init)[k]);
            } else {
                assert(entries[j] == entries.last());
                assert(r[r.len() - 1] == room_of_entry(entries.last())->0);
            }
        }
    }
}

/// Law: the learner's id is looked up by the name `userId` among the members
/// of the login reply's `data`, wherever that member stands: it is the text of
/// the last member so named where that member is a string, and there is none
/// where no member has that name, where `data` is not an object, or where it
/// is missing.
pub proof fn law_user_id_by_name(resp: LoginResponse, fields: Seq<(Seq<char>, JsonView)>, i: int)
    ensures
        resp.data is None ==> login_user_id(resp) is None,
        (resp.data matches Some(d) && !(d@ is Object)) ==> login_user_id(resp) is None,
        (resp.data matches Some(d) && d@ == JsonView::Object(fields)) ==> {
            &&& (forall|j: int| 0 <= j < fields.len() ==> (#[trigger] fields[j]).0 != "userId"@)
                ==> login_user_id(resp) is None
            &&& (0 <= i < fields.len() && fields[i].0 == "userId"@
                && forall|j: int| i < j < fields.len() ==> (#[trigger] fields[j]).0 != "userId"@)
                ==> login_user_id(resp) == match fields[i].1 {
                    JsonView::Str(s) => Some(s),
                    _ => None::<Seq<char>>,
                }
        },
{
    crate::json::law_member_by_name(fields, "userId"@, i);
}

} // verus!
