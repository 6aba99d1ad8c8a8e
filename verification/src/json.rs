use vstd::prelude::*;

use serde_json::Value;

use crate::text::{i64_of_text, parse_i64, str_equal};

verus! {

/// A JSON value as the client reads the platform's replies: objects keep
/// their members in the order they are read, and a number keeps the text
/// that the JSON reader writes for it.
#[derive(Debug, PartialEq, Eq)]
pub enum Json {
    Null,
    Bool(bool),
    /// A number, as the JSON reader writes it back: an integer in plain
    /// decimal, any other number with a fraction or an exponent.
    Number(String),
    Str(String),
    Array(Vec<Json>),
    Object(Vec<(String, Json)>),
}

/// The mathematical value of a [`Json`]: texts as character sequences,
/// arrays and objects as sequences.
pub enum JsonView {
    Null,
    Bool(bool),
    Number(Seq<char>),
    Str(Seq<char>),
    Array(Seq<JsonView>),
    Object(Seq<(Seq<char>, JsonView)>),
}

/// The view of `j`, member by member.
pub open spec fn json_view(j: Json) -> JsonView
    decreases j,
{
    match j {
        Json::Null => JsonView::Null,
        Json::Bool(b) => JsonView::Bool(b),
        Json::Number(t) => JsonView::Number(t@),
        Json::Str(s) => JsonView::Str(s@),
        Json::Array(items) => JsonView::Array(
            Seq::new(
                items@.len(),
                |i: int|
                    if 0 <= i < items@.len() {
                        json_view(items@[i])
                    } else {
                        JsonView::Null
                    },
            ),
        ),
        Json::Object(fields) => JsonView::Object(
            Seq::new(
                fields@.len(),
                |i: int|
                    if 0 <= i < fields@.len() {
                        (fields@[i].0@, json_view(fields@[i].1))
                    } else {
                        (Seq::empty(), JsonView::Null)
                    },
            ),
        ),
    }
}

impl View for Json {
    type V = JsonView;

    open spec fn view(&self) -> JsonView {
        json_view(*self)
    }
}

/// What the JSON reader makes of `text`: the value it reads, or `None` where
/// `text` is not JSON.
pub uninterp spec fn json_of_text(text: Seq<char>) -> Option<JsonView>;

/// Declares the JSON reader's value type to the verifier.
#[verifier::external_type_specification]
#[verifier::external_body]
pub struct ExValue(serde_json::Value);

/// Declares the JSON reader's error type to the verifier.
#[verifier::external_type_specification]
#[verifier::external_body]
pub struct ExJsonError(serde_json::Error);

/// Reads `text` as JSON with `serde_json::from_str` into a `serde_json::Value`
/// and carries that value over into [`Json`].
/// Trusted: the value read, or the failure, is what the reader makes of
/// `text` alone (named `json_of_text`); which texts it accepts is not stated.
#[verifier::external_body]
pub fn parse_json(text: &str) -> (parsed: Result<Json, serde_json::Error>)
    ensures
        match parsed {
            Ok(v) => json_of_text(text@) == Some(v@),
            Err(_) => json_of_text(text@) is None,
        },
{
    serde_json::from_str::<Value>(text).map(json_of_value)
}

/// Carries a `serde_json::Value` over into [`Json`] one for one: each number
/// as the text its `Display` writes, each array and object item by item.
/// Only `parse_json` calls it.
#[verifier::external_body]
fn json_of_value(value: Value) -> Json {
    match value {
        Value::Null => Json::Null,
        Value::Bool(b) => Json::Bool(b),
        Value::Number(n) => Json::Number(n.to_string()),
        Value::String(s) => Json::Str(s),
        Value::Array(items) => Json::Array(items.into_iter().map(json_of_value).collect()),
        Value::Object(members) => Json::Object(
            members.into_iter().map(|(k, v)| (k, json_of_value(v))).collect(),
        ),
    }
}

/// The text of the JSON reader's error, as its `Display` writes it.
/// Trusted: nothing is stated of the text.
#[verifier::external_body]
pub fn json_error_text(e: &serde_json::Error) -> String {
    e.to_string()
}

/// The value of the last member of `fields` named `key`: where a name is
/// repeated, the last occurrence counts, as when JSON text is read into an object.
pub open spec fn field_value(fields: Seq<(Seq<char>, JsonView)>, key: Seq<char>) -> Option<JsonView>
    decreases fields.len(),
{
    if fields.len() == 0 {
        None
    } else if fields.last().0 == key {
        Some(fields.last().1)
    } else {
        field_value(fields.drop_last(), key)
    }
}

/// The member `key` of `v` where `v` is an object; `None` otherwise.
pub open spec fn json_get(v: JsonView, key: Seq<char>) -> Option<JsonView> {
    match v {
        JsonView::Object(fields) => field_value(fields, key),
        _ => None,
    }
}

/// The text of `v` where it is a string.
pub open spec fn json_text(v: Option<JsonView>) -> Option<Seq<char>> {
    match v {
        Some(JsonView::Str(s)) => Some(s),
        _ => None,
    }
}

/// The integer of `v` where it is a number written as an integer that fits
/// `i64`, as `serde_json::Value::as_i64` reads it.
pub open spec fn json_int(v: Option<JsonView>) -> Option<i64> {
    match v {
        Some(JsonView::Number(t)) => i64_of_text(t),
        _ => None,
    }
}

/// The text of member `key` of `v`, where that member is a string.
pub open spec fn member_text(v: JsonView, key: Seq<char>) -> Option<Seq<char>> {
    json_text(json_get(v, key))
}

/// The reply's `status` member is the string `"10000"` or the integer 10000:
/// the platform's mark of success.
pub open spec fn status_is_success(v: JsonView) -> bool {
    match json_get(v, "status"@) {
        Some(JsonView::Str(s)) => s == "10000"@,
        Some(JsonView::Number(t)) => i64_of_text(t) == Some(10000i64),
        _ => false,
    }
}

/// The view of a reference's target, where there is one.
pub open spec fn view_opt(r: Option<&Json>) -> Option<JsonView> {
    match r {
        Some(x) => Some(x@),
        None => None,
    }
}

impl Json {
    /// The member `key` where `self` is an object that has one.
    pub fn get<'a>(&'a self, key: &str) -> (member: Option<&'a Json>)
        ensures
            view_opt(member) == json_get(self@, key@),
    {
        match self {
            Json::Object(fields) => {
                let ghost members = match self@ {
                    JsonView::Object(m) => m,
                    _ => Seq::empty(),
                };
                let n = fields.len();
                let mut i: usize = n;
                assert(members.subrange(0, n as int) =~= members);
                while i > 0
                    invariant
                        n == fields@.len(),
                        n == members.len(),
                        i <= n,
                        forall|j: int| 0 <= j < n ==> #[trigger] members[j] == (fields@[j].0@, fields@[j].1@),
                        json_get(self@, key@) == field_value(members, key@),
                        field_value(members, key@) == field_value(members.subrange(0, i as int), key@),
                    decreases i,
                {
                    let ghost prefix = members.subrange(0, i as int);
                    assert(prefix.drop_last() =~= members.subrange(0, i - 1));
                    assert(prefix.last() == members[i - 1]);
                    if str_equal(fields[i - 1].0.as_str(), key) {
                        return Some(&fields[i - 1].1);
                    }
                    i -= 1;
                }
                None
            },
            _ => None,
        }
    }

    /// The text of `self` where it is a string.
    pub fn as_str(&self) -> (text: Option<&str>)
        ensures
            match text {
                Some(t) => json_text(Some(self@)) == Some(t@),
                None => json_text(Some(self@)) is None,
            },
    {
        match self {
            Json::Str(s) => Some(s.as_str()),
            _ => None,
        }
    }

    /// The integer of `self` where it is a number written as an integer
    /// that fits `i64`.
    pub fn as_i64(&self) -> (n: Option<i64>)
        ensures
            n == json_int(Some(self@)),
    {
        match self {
            Json::Number(t) => parse_i64(t.as_str()),
            _ => None,
        }
    }

    /// The items of `self` where it is an array.
    pub fn as_array(&self) -> (items: Option<&Vec<Json>>)
        ensures
            match *self {
                Json::Array(v) => items == Some(&v),
                _ => items is None,
            },
    {
        match self {
            Json::Array(v) => Some(v),
            _ => None,
        }
    }
}

/// The text of member `key` of `v`, where that member is a string.
pub fn member_str<'a>(v: &'a Json, key: &str) -> (text: Option<&'a str>)
    ensures
        match text {
            Some(t) => member_text(v@, key@) == Some(t@),
            None => member_text(v@, key@) is None,
        },
{
    match v.get(key) {
        Some(m) => m.as_str(),
        None => None,
    }
}

/// Whether the reply's `status` member marks success: the string `"10000"`
/// or the integer 10000.
pub fn status_is_10000(v: &Json) -> (ok: bool)
    ensures
        ok == status_is_success(v@),
{
    match v.get("status") {
        Some(Json::Str(s)) => str_equal(s.as_str(), "10000"),
        Some(Json::Number(t)) => match parse_i64(t.as_str()) {
            Some(n) => n == 10000,
            None => false,
        },
        _ => false,
    }
}

/// Law: an object's member is found by its name, wherever it stands among
/// the members: where no member is named `key` there is none, and otherwise
/// its value is that of the last member so named.
pub proof fn law_member_by_name(fields: Seq<(Seq<char>, JsonView)>, key: Seq<char>, i: int)
    ensures
        (forall|j: int| 0 <= j < fields.len() ==> (#[trigger] fields[j]).0 != key)
            ==> json_get(JsonView::Object(fields), key) is None,
        (0 <= i < fields.len() && fields[i].0 == key
            && forall|j: int| i < j < fields.len() ==> (#[trigger] fields[j]).0 != key)
            ==> json_get(JsonView::Object(fields), key) == Some(fields[i].1),
    decreases fields.len(),
{
    if fields.len() > 0 {
        let init = fields.drop_last();
        let n = fields.len() - 1;
        assert(fields.last() == fields[n]);
        law_member_by_name(init, key, i);
        assert forall|j: int| 0 <= j < init.len() implies #[trigger] init[j] == fields[j] by {}
        if (forall|j: int| 0 <= j < fields.len() ==> (#[trigger] fields[j]).0 != key) {
            assert(fields[n].0 != key);
            assert(forall|j: int| 0 <= j < init.len() ==> (#[trigger] init[j]).0 != key);
        }
        if 0 <= i < fields.len() && fields[i].0 == key
            && forall|j: int| i < j < fields.len() ==> (#[trigger] fields[j]).0 != key {
            if i < n {
                assert(fields[n].0 != key);
                assert(forall|j: int| i < j < init.len() ==> (#[trigger] init[j]).0 != key);
            }
        }
    }
}

} // verus!
