use vstd::prelude::*;
use vstd::string::StringExecFns;
use crate::record::{
    normalize, normalize_spec, event_result_model, text_of, EventModel, NormalizedEvent, ParseError,
    RawLogModel, RawLogRecord,
};

verus! {

#[verifier::external_type_specification]
#[verifier::external_body]
pub struct ExJsonError(serde_json::Error);

/// Whether serde_json accepts a text as one JSON document.
pub uninterp spec fn json_parses(text: Seq<char>) -> bool;

/// The member `key` of the JSON object in `text`, where it is a string: its text.
/// `None` where the document is no object, the member is absent or not a string.
pub uninterp spec fn json_string_field(text: Seq<char>, key: Seq<char>) -> Option<Seq<char>>;

/// The member `key` of the JSON object in `text`, where it is a number: the number
/// as serde_json writes it. `None` otherwise.
pub uninterp spec fn json_number_field(text: Seq<char>, key: Seq<char>) -> Option<Seq<char>>;

/// Relies on serde_json::from_str to parse `text`, on serde_json::Value::get with
/// Value::as_str to read each key's string member, and on Value::as_number with
/// Number's Display to write each key's numeric member. All of these depend on the
/// text and the key alone.
#[verifier::external_body]
fn json_members(text: &str, keys: &Vec<String>) -> (r: Result<
    (Vec<Option<String>>, Vec<Option<String>>),
    serde_json::Error,
>)
    ensures
        r is Ok == json_parses(text@),
        r matches Ok(f) ==> {
            &&& f.0@.len() == keys@.len()
            &&& f.1@.len() == keys@.len()
            &&& forall|i: int|
                0 <= i < keys@.len() ==> text_of(#[trigger] f.0@[i]) == json_string_field(
                    text@,
                    keys@[i]@,
                )
            &&& forall|i: int|
                0 <= i < keys@.len() ==> text_of(#[trigger] f.1@[i]) == json_number_field(
                    text@,
                    keys@[i]@,
                )
        },
{
    let v: serde_json::Value = serde_json::from_str(text)?;
    let member = |k: &String| v.get(k.as_str());
    let strings = keys.iter().map(|k| member(k).and_then(serde_json::Value::as_str).map(String::from));
    let numbers = keys.iter().map(|k| member(k).and_then(serde_json::Value::as_number).map(|n| n.to_string()));
    Ok((strings.collect(), numbers.collect()))
}

/// A member read as text: a string as it stands, a number as written.
pub open spec fn text_member(text: Seq<char>, key: Seq<char>) -> Option<Seq<char>> {
    match json_string_field(text, key) {
        Some(s) => Some(s),
        None => json_number_field(text, key),
    }
}

/// The record that a journal line holds: its string `MESSAGE`, `_HOSTNAME` and
/// `_SOURCE_REALTIME_TIMESTAMP`, and its `_PID` as a string or a number.
pub open spec fn journal_model(text: Seq<char>) -> RawLogModel {
    RawLogModel {
        message: json_string_field(text, "MESSAGE"@),
        hostname: json_string_field(text, "_HOSTNAME"@),
        process_id: text_member(text, "_PID"@),
        timestamp: json_string_field(text, "_SOURCE_REALTIME_TIMESTAMP"@),
    }
}

/// What one journal line gives: `MalformedLine` where it is not JSON, else the
/// outcome of normalizing the record that it holds.
pub open spec fn line_outcome_spec(text: Seq<char>) -> Result<EventModel, ParseError> {
    if json_parses(text) {
        normalize_spec(journal_model(text))
    } else {
        Err(ParseError::MalformedLine)
    }
}

/// Reads one journal line, a JSON object, into the record of the fields that
/// normalization reads.
pub fn decode_record(line: &str) -> (r: Result<RawLogRecord, ParseError>)
    ensures
        r is Ok == json_parses(line@),
        r is Err ==> r == Err::<RawLogRecord, ParseError>(ParseError::MalformedLine),
        r matches Ok(raw) ==> raw@ == journal_model(line@),
{
    let mut keys: Vec<String> = Vec::new();
    keys.push(String::from_str("MESSAGE"));
    keys.push(String::from_str("_HOSTNAME"));
    keys.push(String::from_str("_PID"));
    keys.push(String::from_str("_SOURCE_REALTIME_TIMESTAMP"));
    let (strings, numbers) = match json_members(line, &keys) {
        Ok(f) => f,
        Err(_) => {
            return Err(ParseError::MalformedLine);
        },
    };
    assert(text_of(strings@[0]) == json_string_field(line@, "MESSAGE"@));
    assert(text_of(strings@[1]) == json_string_field(line@, "_HOSTNAME"@));
    assert(text_of(strings@[2]) == json_string_field(line@, "_PID"@));
    assert(text_of(numbers@[2]) == json_number_field(line@, "_PID"@));
    assert(text_of(strings@[3]) == json_string_field(line@, "_SOURCE_REALTIME_TIMESTAMP"@));
    let mut strings = strings;
    let mut numbers = numbers;
    let pid_number = numbers.remove(2);
    let timestamp = strings.remove(3);
    let pid_string = strings.remove(2);
    let hostname = strings.remove(1);
    let message = strings.remove(0);
    let process_id = match pid_string {
        Some(s) => Some(s),
        None => pid_number,
    };
    Ok(RawLogRecord { message, hostname, process_id, timestamp })
}

/// Turns one journal line into an event, or says why it yields none.
pub fn process_line(line: &str) -> (r: Result<NormalizedEvent, ParseError>)
    ensures
        event_result_model(r) == line_outcome_spec(line@),
{
    match decode_record(line) {
        Ok(raw) => normalize(&raw),
        Err(e) => Err(e),
    }
}

} // verus!
