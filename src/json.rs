//! A JSON document as plain values, read from text by serde_json, and the
//! readers of the few documents this library consumes.

use vstd::prelude::*;
use vstd::string::StringExecFns;

use crate::text::{normalize_version, normalized_version};
use crate::version::{is_stable_node_version, stable_version};

verus! {

/// serde_json's JSON value, carried opaquely from the parser into
/// `json_from_value`, which is its only reader.
#[verifier::external_type_specification]
#[verifier::external_body]
pub struct ExJsonValue(serde_json::Value);

/// A JSON value. Numbers keep their decimal text; objects keep their members
/// in the order the parser hands them out, each key once.
pub enum Json {
    Null,
    Bool(bool),
    Number(String),
    Str(String),
    Array(Vec<Json>),
    Object(Vec<(String, Json)>),
}

/// The document that `text` holds, or `None` where it is not valid JSON.
pub uninterp spec fn parsed_json(text: Seq<char>) -> Option<Json>;

/// Moves a serde_json value into the library's own `Json`, variant for
/// variant. Relies on the six variants of `serde_json::Value`, on the
/// `Display` of `serde_json::Number` for a number's text, and on
/// `serde_json::Map`'s iteration for the members (each key once). Promises
/// nothing by itself: what it yields is named through `parse_json`.
#[verifier::external_body]
fn json_from_value(v: serde_json::Value) -> Json {
    match v {
        serde_json::Value::Null => Json::Null,
        serde_json::Value::Bool(b) => Json::Bool(b),
        serde_json::Value::Number(n) => Json::Number(n.to_string()),
        serde_json::Value::String(s) => Json::Str(s),
        serde_json::Value::Array(items) => Json::Array(items.into_iter().map(json_from_value).collect()),
        serde_json::Value::Object(members) => Json::Object(
            members.into_iter().map(|(k, m)| (k, json_from_value(m))).collect(),
        ),
    }
}

/// Relies on `serde_json::from_str::<serde_json::Value>`, then
/// `json_from_value`: the document depends on the text alone (`None` where
/// the parser refuses the text), so it is named `parsed_json(text)`.
#[verifier::external_body]
pub(crate) fn parse_json(text: &str) -> (r: Option<Json>)
    ensures
        r == parsed_json(text@),
{
    match serde_json::from_str::<serde_json::Value>(text) {
        Ok(v) => Some(json_from_value(v)),
        Err(_) => None,
    }
}

/// The first member of `members` named `key`.
pub open spec fn member(members: Seq<(String, Json)>, key: Seq<char>) -> Option<Json>
    decreases members.len(),
{
    if members.len() == 0 {
        None
    } else if members[0].0@ == key {
        Some(members[0].1)
    } else {
        member(members.drop_first(), key)
    }
}

/// Member `key` of `j`, where `j` is an object that has one.
pub open spec fn field(j: Json, key: Seq<char>) -> Option<Json> {
    match j {
        Json::Object(members) => member(members@, key),
        _ => None,
    }
}

/// Member `key` of `j`, where `j` is an object that has one.
pub fn get_field<'a>(j: &'a Json, key: &String) -> (r: Option<&'a Json>)
    ensures
        r matches Some(v) ==> field(*j, key@) == Some(*v),
        r is None ==> field(*j, key@) is None,
{
    match j {
        Json::Object(members) => {
            let mut i: usize = 0;
            assert(members@.subrange(0, members@.len() as int) =~= members@);
            while i < members.len()
                invariant
                    i <= members.len(),
                    field(*j, key@) == member(members@, key@),
                    member(members@, key@) == member(
                        members@.subrange(i as int, members@.len() as int),
                        key@,
                    ),
                decreases members.len() - i,
            {
                let ghost cur = members@.subrange(i as int, members@.len() as int);
                assert(cur.drop_first() =~= members@.subrange(i + 1, members@.len() as int));
                if members[i].0 == *key {
                    return Some(&members[i].1);
                }
                i = i + 1;
            }
            None
        },
        _ => None,
    }
}

/// The normalised version that an entry of a version index announces.
pub open spec fn entry_version(e: Json) -> Option<Seq<char>> {
    match field(e, "version"@) {
        Some(Json::Str(s)) => Some(normalized_version(s@)),
        _ => None,
    }
}

pub open spec fn first_stable(entries: Seq<Json>) -> Option<Seq<char>>
    decreases entries.len(),
{
    if entries.len() == 0 {
        None
    } else {
        match entry_version(entries[0]) {
            Some(v) if stable_version(v) => Some(v),
            _ => first_stable(entries.drop_first()),
        }
    }
}

/// The newest stable release in a version index: the index is an array of
/// entries, newest first, and the first whose version is stable wins.
pub open spec fn latest_stable(doc: Json) -> Option<Seq<char>> {
    match doc {
        Json::Array(entries) => first_stable(entries@),
        _ => None,
    }
}

/// The first stable version listed in a version index document.
pub fn latest_stable_in_index(doc: &Json) -> (r: Option<String>)
    ensures
        r matches Some(v) ==> latest_stable(*doc) == Some(v@),
        r is None ==> latest_stable(*doc) is None,
{
    let key = String::from_str("version");
    match doc {
        Json::Array(entries) => {
            let mut i: usize = 0;
            assert(entries@.subrange(0, entries@.len() as int) =~= entries@);
            while i < entries.len()
                invariant
                    i <= entries.len(),
                    key@ == "version"@,
                    latest_stable(*doc) == first_stable(entries@),
                    first_stable(entries@) == first_stable(
                        entries@.subrange(i as int, entries@.len() as int),
                    ),
                decreases entries.len() - i,
            {
                let ghost cur = entries@.subrange(i as int, entries@.len() as int);
                assert(cur.drop_first() =~= entries@.subrange(i + 1, entries@.len() as int));
                assert(cur[0] == entries@[i as int]);
                match get_field(&entries[i], &key) {
                    Some(Json::Str(s)) => {
                        let normalized = normalize_version(s.as_str());
                        if is_stable_node_version(normalized.as_str()) {
                            return Some(normalized);
                        }
                    },
                    _ => {},
                }
                i = i + 1;
            }
            None
        },
        _ => None,
    }
}

/// The newest stable release named by the text of a version index, or `None`
/// where the text is not JSON or lists no stable release.
pub fn latest_stable_from_index(raw: &str) -> (r: Option<String>)
    ensures
        r matches Some(v) ==> parsed_json(raw@) matches Some(doc) && latest_stable(doc) == Some(
            v@,
        ),
        r is None ==> parsed_json(raw@) matches None || latest_stable(parsed_json(raw@)->0) is None,
{
    match parse_json(raw) {
        Some(doc) => latest_stable_in_index(&doc),
        None => None,
    }
}

/// The model named in the tool's configuration document, at `agent.model`.
pub open spec fn configured_model(doc: Json) -> Option<Seq<char>> {
    match field(doc, "agent"@) {
        Some(agent) => match field(agent, "model"@) {
            Some(Json::Str(s)) => Some(s@),
            _ => None,
        },
        None => None,
    }
}

/// The model named at `agent.model` in the tool's configuration, if any.
pub fn selected_model_of(doc: &Json) -> (r: Option<String>)
    ensures
        r matches Some(m) ==> configured_model(*doc) == Some(m@),
        r is None ==> configured_model(*doc) is None,
{
    let agent_key = String::from_str("agent");
    let model_key = String::from_str("model");
    match get_field(doc, &agent_key) {
        Some(agent) => match get_field(agent, &model_key) {
            Some(Json::Str(s)) => Some(s.clone()),
            _ => None,
        },
        None => None,
    }
}

/// The model named in the text of the tool's configuration: `None` where the
/// text is not JSON, else what `configured_model` finds in it.
pub fn selected_model_from_text(raw: &str) -> (r: Option<Option<String>>)
    ensures
        parsed_json(raw@) is None ==> r is None,
        parsed_json(raw@) matches Some(doc) ==> (r matches Some(m) && (match m {
            Some(s) => configured_model(doc) == Some(s@),
            None => configured_model(doc) is None,
        })),
{
    match parse_json(raw) {
        Some(doc) => Some(selected_model_of(&doc)),
        None => None,
    }
}

/// Whether every member of `members` has a string value.
pub open spec fn all_string_members(members: Seq<(String, Json)>) -> bool {
    forall|i: int| 0 <= i < members.len() ==> (#[trigger] members[i]).1 is Str
}

/// The key/value pairs of a credentials document: an object whose members
/// are all strings. Anything else is not a credentials document.
pub fn string_pairs_of(doc: &Json) -> (r: Option<Vec<(String, String)>>)
    ensures
        r matches Some(pairs) ==> doc matches Json::Object(members) && all_string_members(
            members@,
        ) && pairs.len() == members.len() && (forall|i: int|
            0 <= i < pairs.len() ==> pairs[i].0@ == (#[trigger] members@[i]).0@ && (
            members@[i].1 matches Json::Str(v) && pairs[i].1@ == v@)),
        r is None ==> !(doc matches Json::Object(members) && all_string_members(members@)),
{
    match doc {
        Json::Object(members) => {
            let mut out: Vec<(String, String)> = Vec::new();
            let mut i: usize = 0;
            while i < members.len()
                invariant
                    i <= members.len(),
                    *doc == Json::Object(*members),
                    out.len() == i,
                    forall|k: int| 0 <= k < i ==> (#[trigger] members@[k]).1 is Str,
                    forall|k: int|
                        0 <= k < i ==> out[k].0@ == (#[trigger] members@[k]).0@ && (
                        members@[k].1 matches Json::Str(v) && out[k].1@ == v@),
                decreases members.len() - i,
            {
                match &members[i].1 {
                    Json::Str(v) => {
                        out.push((members[i].0.clone(), v.clone()));
                    },
                    _ => {
                        assert(!((members@[i as int]).1 is Str));
                        return None;
                    },
                }
                i = i + 1;
            }
            Some(out)
        },
        _ => None,
    }
}

/// The key/value pairs held by the text of a credentials file, or `None`
/// where the text is not JSON or not an object of strings.
pub fn string_pairs_from_text(raw: &str) -> (r: Option<Vec<(String, String)>>)
    ensures
        r matches Some(pairs) ==> (parsed_json(raw@) matches Some(doc) && doc matches Json::Object(
            members,
        ) && all_string_members(members@) && pairs.len() == members.len() && (forall|i: int|
            0 <= i < pairs.len() ==> pairs[i].0@ == (#[trigger] members@[i]).0@ && (
            members@[i].1 matches Json::Str(v) && pairs[i].1@ == v@))),
        r is None ==> (parsed_json(raw@) is None || !(parsed_json(raw@)->0 matches Json::Object(
            members) && all_string_members(members@))),
{
    match parse_json(raw) {
        Some(doc) => string_pairs_of(&doc),
        None => None,
    }
}

} // verus!
