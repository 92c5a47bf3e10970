use vstd::prelude::*;
use vstd::string::StrSliceExecFns;
use vstd::string::StringExecFns;
use crate::extract::{extract, extract_spec, AddressPort, AddressPortModel};

verus! {

/// One journal entry, reduced to the fields that normalization reads. A field that
/// was absent, null or not a string is `None`.
#[derive(Clone, Debug, PartialEq, Eq)]
pub struct RawLogRecord {
    pub message: Option<String>,
    pub hostname: Option<String>,
    pub process_id: Option<String>,
    pub timestamp: Option<String>,
}

pub struct RawLogModel {
    pub message: Option<Seq<char>>,
    pub hostname: Option<Seq<char>>,
    pub process_id: Option<Seq<char>>,
    pub timestamp: Option<Seq<char>>,
}

pub open spec fn text_of(o: Option<String>) -> Option<Seq<char>> {
    match o {
        Some(s) => Some(s@),
        None => None,
    }
}

impl View for RawLogRecord {
    type V = RawLogModel;

    open spec fn view(&self) -> RawLogModel {
        RawLogModel {
            message: text_of(self.message),
            hostname: text_of(self.hostname),
            process_id: text_of(self.process_id),
            timestamp: text_of(self.timestamp),
        }
    }
}

/// A failed SSH authentication attempt, in the form that is forwarded.
#[derive(Clone, Debug, PartialEq, Eq)]
pub struct NormalizedEvent {
    pub failed: bool,
    pub hostname: String,
    pub address: String,
    pub port: String,
    pub process_id: String,
    pub timestamp_seconds: String,
    pub user: String,
}

pub struct EventModel {
    pub failed: bool,
    pub hostname: Seq<char>,
    pub address: Seq<char>,
    pub port: Seq<char>,
    pub process_id: Seq<char>,
    pub timestamp_seconds: Seq<char>,
    pub user: Seq<char>,
}

impl View for NormalizedEvent {
    type V = EventModel;

    open spec fn view(&self) -> EventModel {
        EventModel {
            failed: self.failed,
            hostname: self.hostname@,
            address: self.address@,
            port: self.port@,
            process_id: self.process_id@,
            timestamp_seconds: self.timestamp_seconds@,
            user: self.user@,
        }
    }
}

/// Why a line yields no event.
#[derive(Clone, Copy, Debug, PartialEq, Eq, Structural)]
pub enum ParseError {
    /// The line is not a JSON document.
    MalformedLine,
    /// The entry has no string `MESSAGE`.
    MissingMessage,
    /// The message holds no address followed by a port.
    NoAddressPortMatch,
    /// The source timestamp is absent or has six characters or fewer.
    TimestampTooShort,
}

/// The user of every event: user names are not extracted.
pub open spec fn placeholder_user() -> Seq<char> {
    "[placeholder]"@
}

/// A field that may be absent, with absence read as the empty text.
pub open spec fn or_empty(o: Option<Seq<char>>) -> Seq<char> {
    match o {
        Some(s) => s,
        None => Seq::empty(),
    }
}

/// A microsecond timestamp cut to seconds: its last six characters dropped.
pub open spec fn seconds_spec(t: Seq<char>) -> Option<Seq<char>> {
    if t.len() > 6 {
        Some(t.subrange(0, t.len() - 6))
    } else {
        None
    }
}

/// The event built from an entry whose message held `ap` and whose timestamp cut to
/// `secs`.
pub open spec fn event_spec(raw: RawLogModel, ap: AddressPortModel, secs: Seq<char>) -> EventModel {
    EventModel {
        failed: true,
        hostname: or_empty(raw.hostname),
        address: ap.address,
        port: ap.port,
        process_id: or_empty(raw.process_id),
        timestamp_seconds: secs,
        user: placeholder_user(),
    }
}

/// What normalization gives for an entry.
pub open spec fn normalize_spec(raw: RawLogModel) -> Result<EventModel, ParseError> {
    match raw.message {
        None => Err(ParseError::MissingMessage),
        Some(m) => match extract_spec(m) {
            None => Err(ParseError::NoAddressPortMatch),
            Some(ap) => match raw.timestamp {
                None => Err(ParseError::TimestampTooShort),
                Some(t) => match seconds_spec(t) {
                    None => Err(ParseError::TimestampTooShort),
                    Some(secs) => Ok(event_spec(raw, ap, secs)),
                },
            },
        },
    }
}

pub open spec fn event_result_model(r: Result<NormalizedEvent, ParseError>) -> Result<
    EventModel,
    ParseError,
> {
    match r {
        Ok(e) => Ok(e@),
        Err(x) => Err(x),
    }
}

fn copy_or_empty(o: &Option<String>) -> (r: String)
    ensures
        r@ == or_empty(text_of(*o)),
{
    match o {
        Some(s) => String::from_str(s.as_str()),
        None => String::new(),
    }
}

/// Cuts a microsecond timestamp to seconds by dropping its last six characters.
pub fn timestamp_seconds(micros: &str) -> (r: Result<String, ParseError>)
    ensures
        match r {
            Ok(s) => seconds_spec(micros@) == Some(s@),
            Err(x) => seconds_spec(micros@) is None && x == ParseError::TimestampTooShort,
        },
{
    let n = micros.unicode_len();
    if n > 6 {
        Ok(String::from_str(micros.substring_char(0, n - 6)))
    } else {
        Err(ParseError::TimestampTooShort)
    }
}

/// Turns one journal entry into an event, or says why it yields none. A missing
/// hostname or process id is read as the empty text rather than failing the entry.
pub fn normalize(raw: &RawLogRecord) -> (r: Result<NormalizedEvent, ParseError>)
    ensures
        event_result_model(r) == normalize_spec(raw@),
{
    let message = match &raw.message {
        Some(m) => m,
        None => {
            return Err(ParseError::MissingMessage);
        },
    };
    let ap: AddressPort = match extract(message.as_str()) {
        Ok(ap) => ap,
        Err(_) => {
            return Err(ParseError::NoAddressPortMatch);
        },
    };
    let secs = match &raw.timestamp {
        Some(t) => timestamp_seconds(t.as_str()),
        None => Err(ParseError::TimestampTooShort),
    };
    let secs = match secs {
        Ok(s) => s,
        Err(x) => {
            return Err(x);
        },
    };
    let e = NormalizedEvent {
        failed: true,
        hostname: copy_or_empty(&raw.hostname),
        address: ap.address,
        port: ap.port,
        process_id: copy_or_empty(&raw.process_id),
        timestamp_seconds: secs,
        user: String::from_str("[placeholder]"),
    };
    assert(e@ == event_spec(raw@, extract_spec(message@)->Some_0, secs@));
    Ok(e)
}

/// Normalization is total: every entry gives an event or one of the three reasons
/// that an entry can fail for.
pub proof fn lemma_normalize_total(raw: RawLogModel)
    ensures
        normalize_spec(raw) is Ok || normalize_spec(raw) == Err::<EventModel, ParseError>(
            ParseError::MissingMessage,
        ) || normalize_spec(raw) == Err::<EventModel, ParseError>(ParseError::NoAddressPortMatch)
            || normalize_spec(raw) == Err::<EventModel, ParseError>(
            ParseError::TimestampTooShort,
        ),
{
}

/// Normalization depends on the entry alone: two entries with the same fields give
/// the same outcome.
pub proof fn lemma_normalize_deterministic(a: RawLogRecord, b: RawLogRecord)
    requires
        a@ == b@,
    ensures
        normalize_spec(a@) == normalize_spec(b@),
{
}

} // verus!
