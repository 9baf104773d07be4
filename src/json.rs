use vstd::prelude::*;

use crate::error::DecodeError;
use crate::time::{date_of, parse_date, parse_timestamp, timestamp_of, CalendarDate, Timestamp};

verus! {

#[verifier::external_type_specification]
#[verifier::external_body]
pub struct ExJsonValue(serde_json::Value);

/// A JSON document as a tree.
#[derive(Debug)]
pub enum Json {
    Null,
    Bool(bool),
    /// A number: `None` where it is not an integer that fits in `i64`.
    Number(Option<i64>),
    Str(String),
    Array(Vec<Json>),
    /// The members as serde_json's map holds them: sorted by key, each key once.
    Object(Vec<(String, Json)>),
}

/// The tree serde_json reads from a text; `None` where the text is no JSON.
pub uninterp spec fn json_of_text(text: Seq<char>) -> Option<Json>;

/// Relies on `serde_json::from_str::<serde_json::Value>`: whether the text is
/// JSON and which tree it holds depend on the text alone.
#[verifier::external_body]
pub fn parse_json(text: &str) -> (r: Option<Json>)
    ensures
        r == json_of_text(text@),
{
    match serde_json::from_str::<serde_json::Value>(text) {
        Ok(v) => Some(from_value(v)),
        Err(_) => None,
    }
}

/// Moves serde_json's tree into `Json`, node for node; a number keeps
/// `serde_json::Number::as_i64`.
#[verifier::external_body]
fn from_value(v: serde_json::Value) -> Json {
    match v {
        serde_json::Value::Null => Json::Null,
        serde_json::Value::Bool(b) => Json::Bool(b),
        serde_json::Value::Number(n) => Json::Number(n.as_i64()),
        serde_json::Value::String(s) => Json::Str(s),
        serde_json::Value::Array(a) => Json::Array(a.into_iter().map(from_value).collect()),
        serde_json::Value::Object(m) => Json::Object(
            m.into_iter().map(|(k, x)| (k, from_value(x))).collect(),
        ),
    }
}

/// The value of the first member named `key`.
pub open spec fn lookup(fields: Seq<(String, Json)>, key: Seq<char>) -> Option<Json>
    decreases fields.len(),
{
    if fields.len() == 0 {
        None
    } else if fields[0].0@ == key {
        Some(fields[0].1)
    } else {
        lookup(fields.drop_first(), key)
    }
}

/// The member `key` of an object; `None` where `j` is no object or lacks it.
pub open spec fn member(j: Json, key: Seq<char>) -> Option<Json> {
    match j {
        Json::Object(fields) => lookup(fields@, key),
        _ => None,
    }
}

/// A required string.
pub open spec fn as_text(o: Option<Json>) -> Option<Seq<char>> {
    match o {
        Some(Json::Str(s)) => Some(s@),
        _ => None,
    }
}

/// A required boolean.
pub open spec fn as_flag(o: Option<Json>) -> Option<bool> {
    match o {
        Some(Json::Bool(b)) => Some(b),
        _ => None,
    }
}

/// A required integer in the range of `i32`.
pub open spec fn as_int32(o: Option<Json>) -> Option<i32> {
    match o {
        Some(Json::Number(Some(n))) => if i32::MIN <= n <= i32::MAX {
            Some(n as i32)
        } else {
            None
        },
        _ => None,
    }
}

/// An optional string: absent or null is `Some(None)`, anything but a string
/// is `None`.
pub open spec fn as_opt_text(o: Option<Json>) -> Option<Option<Seq<char>>> {
    match o {
        None => Some(None),
        Some(Json::Null) => Some(None),
        Some(Json::Str(s)) => Some(Some(s@)),
        _ => None,
    }
}

/// An optional boolean, as `as_opt_text`.
pub open spec fn as_opt_flag(o: Option<Json>) -> Option<Option<bool>> {
    match o {
        None => Some(None),
        Some(Json::Null) => Some(None),
        Some(Json::Bool(b)) => Some(Some(b)),
        _ => None,
    }
}

/// A required timestamp.
pub open spec fn as_time(o: Option<Json>) -> Option<Timestamp> {
    match o {
        Some(Json::Str(s)) => timestamp_of(s@),
        _ => None,
    }
}

/// An optional timestamp, as `as_opt_text`.
pub open spec fn as_opt_time(o: Option<Json>) -> Option<Option<Timestamp>> {
    match o {
        None => Some(None),
        Some(Json::Null) => Some(None),
        Some(Json::Str(s)) => match timestamp_of(s@) {
            Some(t) => Some(Some(t)),
            None => None,
        },
        _ => None,
    }
}

/// An optional date, as `as_opt_text`.
pub open spec fn as_opt_date(o: Option<Json>) -> Option<Option<CalendarDate>> {
    match o {
        None => Some(None),
        Some(Json::Null) => Some(None),
        Some(Json::Str(s)) => match date_of(s@) {
            Some(d) => Some(Some(d)),
            None => None,
        },
        _ => None,
    }
}

/// The elements of a list member. An absent member is empty where
/// `absent_empty`, a null one where `null_empty`; otherwise both fail.
pub open spec fn as_items(o: Option<Json>, absent_empty: bool, null_empty: bool) -> Option<
    Seq<Json>,
> {
    match o {
        None => if absent_empty {
            Some(Seq::empty())
        } else {
            None
        },
        Some(Json::Null) => if null_empty {
            Some(Seq::empty())
        } else {
            None
        },
        Some(Json::Array(items)) => Some(items@),
        _ => None,
    }
}

proof fn lemma_lookup_step(fields: Seq<(String, Json)>, i: int, key: Seq<char>)
    requires
        0 <= i < fields.len(),
        fields[i].0@ != key,
    ensures
        lookup(fields.subrange(i, fields.len() as int), key) == lookup(
            fields.subrange(i + 1, fields.len() as int),
            key,
        ),
{
    assert(fields.subrange(i, fields.len() as int).drop_first() =~= fields.subrange(
        i + 1,
        fields.len() as int,
    ));
}

/// The member `key` of `j`, found by a scan from the front.
pub fn get_member<'a>(j: &'a Json, key: &str) -> (r: Option<&'a Json>)
    ensures
        r matches Some(x) ==> member(*j, key@) == Some(*x),
        r is None ==> member(*j, key@) is None,
{
    match j {
        Json::Object(fields) => {
            let k = key.to_owned();
            let mut i: usize = 0;
            assert(fields@.subrange(0, fields@.len() as int) =~= fields@);
            while i < fields.len()
                invariant
                    i <= fields@.len(),
                    k@ == key@,
                    member(*j, key@) == lookup(fields@, key@),
                    lookup(fields@, key@) == lookup(
                        fields@.subrange(i as int, fields@.len() as int),
                        key@,
                    ),
                decreases fields@.len() - i,
            {
                if fields[i].0 == k {
                    assert(fields@.subrange(i as int, fields@.len() as int)[0] == fields@[i as int]);
                    return Some(&fields[i].1);
                }
                proof {
                    lemma_lookup_step(fields@, i as int, key@);
                }
                i = i + 1;
            }
            None
        },
        _ => None,
    }
}

/// Whether `a` holds the text `b`.
pub fn same_text(a: &String, b: &str) -> (r: bool)
    ensures
        r == (a@ == b@),
{
    let t = b.to_owned();
    *a == t
}

/// The views of an optional string.
pub open spec fn text_view(o: Option<String>) -> Option<Seq<char>> {
    match o {
        Some(s) => Some(s@),
        None => None,
    }
}

/// A required string member.
pub fn text_member(j: &Json, key: &str) -> (r: Result<String, DecodeError>)
    ensures
        r is Ok <==> as_text(member(*j, key@)) is Some,
        r matches Ok(s) ==> as_text(member(*j, key@)) == Some(s@),
            r matches Err(e) ==> e.field@ == key@,
{
    match get_member(j, key) {
        Some(Json::Str(s)) => Ok(s.clone()),
        _ => Err(DecodeError::at(key)),
    }
}

/// A required boolean member.
pub fn flag_member(j: &Json, key: &str) -> (r: Result<bool, DecodeError>)
    ensures
        r is Ok <==> as_flag(member(*j, key@)) is Some,
        r matches Ok(b) ==> as_flag(member(*j, key@)) == Some(b),
            r matches Err(e) ==> e.field@ == key@,
{
    match get_member(j, key) {
        Some(Json::Bool(b)) => Ok(*b),
        _ => Err(DecodeError::at(key)),
    }
}

/// A required member that is an integer in the range of `i32`.
pub fn int32_member(j: &Json, key: &str) -> (r: Result<i32, DecodeError>)
    ensures
        r is Ok <==> as_int32(member(*j, key@)) is Some,
        r matches Ok(n) ==> as_int32(member(*j, key@)) == Some(n),
            r matches Err(e) ==> e.field@ == key@,
{
    match get_member(j, key) {
        Some(Json::Number(Some(n))) => {
            if i32::MIN as i64 <= *n && *n <= i32::MAX as i64 {
                Ok(*n as i32)
            } else {
                Err(DecodeError::at(key))
            }
        },
        _ => Err(DecodeError::at(key)),
    }
}

/// An optional string member.
pub fn opt_text_member(j: &Json, key: &str) -> (r: Result<Option<String>, DecodeError>)
    ensures
        r is Ok <==> as_opt_text(member(*j, key@)) is Some,
        r matches Ok(Some(s)) ==> as_opt_text(member(*j, key@)) == Some(Some(s@)),
        r matches Ok(None) ==> as_opt_text(member(*j, key@)) == Some(None::<Seq<char>>),
            r matches Err(e) ==> e.field@ == key@,
{
    match get_member(j, key) {
        None => Ok(None),
        Some(Json::Null) => Ok(None),
        Some(Json::Str(s)) => Ok(Some(s.clone())),
        _ => Err(DecodeError::at(key)),
    }
}

/// An optional boolean member.
pub fn opt_flag_member(j: &Json, key: &str) -> (r: Result<Option<bool>, DecodeError>)
    ensures
        r is Ok <==> as_opt_flag(member(*j, key@)) is Some,
        r matches Ok(b) ==> as_opt_flag(member(*j, key@)) == Some(b),
            r matches Err(e) ==> e.field@ == key@,
{
    match get_member(j, key) {
        None => Ok(None),
        Some(Json::Null) => Ok(None),
        Some(Json::Bool(b)) => Ok(Some(*b)),
        _ => Err(DecodeError::at(key)),
    }
}

/// A required timestamp member.
pub fn time_member(j: &Json, key: &str) -> (r: Result<Timestamp, DecodeError>)
    ensures
        r is Ok <==> as_time(member(*j, key@)) is Some,
        r matches Ok(t) ==> as_time(member(*j, key@)) == Some(t),
            r matches Err(e) ==> e.field@ == key@,
{
    match get_member(j, key) {
        Some(Json::Str(s)) => match parse_timestamp(s.as_str()) {
            Some(t) => Ok(t),
            None => Err(DecodeError::at(key)),
        },
        _ => Err(DecodeError::at(key)),
    }
}

/// An optional timestamp member.
pub fn opt_time_member(j: &Json, key: &str) -> (r: Result<Option<Timestamp>, DecodeError>)
    ensures
        r is Ok <==> as_opt_time(member(*j, key@)) is Some,
        r matches Ok(t) ==> as_opt_time(member(*j, key@)) == Some(t),
            r matches Err(e) ==> e.field@ == key@,
{
    match get_member(j, key) {
        None => Ok(None),
        Some(Json::Null) => Ok(None),
        Some(Json::Str(s)) => match parse_timestamp(s.as_str()) {
            Some(t) => Ok(Some(t)),
            None => Err(DecodeError::at(key)),
        },
        _ => Err(DecodeError::at(key)),
    }
}

/// An optional date member.
pub fn opt_date_member(j: &Json, key: &str) -> (r: Result<Option<CalendarDate>, DecodeError>)
    ensures
        r is Ok <==> as_opt_date(member(*j, key@)) is Some,
        r matches Ok(d) ==> as_opt_date(member(*j, key@)) == Some(d),
            r matches Err(e) ==> e.field@ == key@,
{
    match get_member(j, key) {
        None => Ok(None),
        Some(Json::Null) => Ok(None),
        Some(Json::Str(s)) => match parse_date(s.as_str()) {
            Some(d) => Ok(Some(d)),
            None => Err(DecodeError::at(key)),
        },
        _ => Err(DecodeError::at(key)),
    }
}

/// The elements of a list member; `Ok(None)` where it stands for the empty
/// list (see `as_items`).
pub fn items_member<'a>(j: &'a Json, key: &str, absent_empty: bool, null_empty: bool) -> (r:
    Result<Option<&'a Vec<Json>>, DecodeError>)
    ensures
        r is Ok <==> as_items(member(*j, key@), absent_empty, null_empty) is Some,
        r matches Ok(Some(v)) ==> as_items(member(*j, key@), absent_empty, null_empty) == Some(
            v@,
        ),
        r matches Ok(None) ==> as_items(member(*j, key@), absent_empty, null_empty) == Some(
            Seq::<Json>::empty(),
        ),
            r matches Err(e) ==> e.field@ == key@,
{
    match get_member(j, key) {
        None => if absent_empty {
            Ok(None)
        } else {
            Err(DecodeError::at(key))
        },
        Some(Json::Null) => if null_empty {
            Ok(None)
        } else {
            Err(DecodeError::at(key))
        },
        Some(Json::Array(items)) => Ok(Some(items)),
        _ => Err(DecodeError::at(key)),
    }
}

} // verus!
