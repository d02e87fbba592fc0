use vstd::prelude::*;
use vstd::string::StringExecFns;
use crate::errors::{DecodeError, DecodeErrorView};
use crate::json::{Json, JsonView};

verus! {

/// An instant: the whole seconds since the start of 1970 in UTC, and the
/// nanoseconds behind them.
#[derive(Debug, Clone, Copy, PartialEq, Eq, Structural)]
pub struct Timestamp {
    pub seconds: i64,
    pub nanos: u32,
}

/// The instant that `chrono` reads from a text by the `FromStr` of
/// `DateTime<Utc>`, as seconds and nanoseconds; `None` where it reads none
/// and gives an error.
pub uninterp spec fn parsed_instant(text: Seq<char>) -> Option<(i64, u32)>;

/// Parses a text as a `chrono::DateTime<Utc>`, by its `FromStr`, and hands
/// back what its `timestamp` and `timestamp_subsec_nanos` give. Nothing is
/// proved of it: the contract only gives the outcome its name,
/// `parsed_instant`.
#[verifier::external_body]
fn read_instant(text: &str) -> (res: Option<(i64, u32)>)
    ensures
        res == parsed_instant(text@),
{
    match text.parse::<chrono::DateTime<chrono::Utc>>() {
        Ok(time) => Some((time.timestamp(), time.timestamp_subsec_nanos())),
        Err(_) => None,
    }
}

/// The instant that a text names, where it names one.
pub open spec fn instant_of(text: Seq<char>) -> Option<Timestamp> {
    match parsed_instant(text) {
        Some((seconds, nanos)) => Some(Timestamp { seconds, nanos }),
        None => None,
    }
}

/// The instant under the member `key`, which must be there and be a string
/// that names an instant.
pub open spec fn require_instant(doc: JsonView, key: Seq<char>) -> Result<
    Timestamp,
    DecodeErrorView,
> {
    match doc.field(key) {
        None => Err(DecodeErrorView::MissingField(key)),
        Some(JsonView::Str(text)) => match instant_of(text) {
            Some(instant) => Ok(instant),
            None => Err(DecodeErrorView::WrongType(key)),
        },
        Some(_) => Err(DecodeErrorView::WrongType(key)),
    }
}

impl Timestamp {
    /// Reads an instant from a text in the form of RFC 3339, with `T` or a
    /// space between the date and the time.
    pub fn parse(text: &str) -> (res: Option<Timestamp>)
        ensures
            res == instant_of(text@),
    {
        match read_instant(text) {
            Some((seconds, nanos)) => Some(Timestamp { seconds, nanos }),
            None => None,
        }
    }

    /// Whether this instant is earlier than the other.
    pub fn is_before(&self, other: &Timestamp) -> (res: bool)
        ensures
            res == (self.seconds < other.seconds || (self.seconds == other.seconds && self.nanos
                < other.nanos)),
    {
        self.seconds < other.seconds || (self.seconds == other.seconds && self.nanos < other.nanos)
    }
}

/// Reads the instant under the member `key`, which must be there and be a
/// string that names an instant.
pub fn instant_field(doc: &Json, key: &str) -> (res: Result<Timestamp, DecodeError>)
    ensures
        match res {
            Ok(instant) => require_instant(doc@, key@) == Ok::<Timestamp, DecodeErrorView>(
                instant,
            ),
            Err(error) => require_instant(doc@, key@) == Err::<Timestamp, DecodeErrorView>(
                error@,
            ),
        },
{
    match doc.get(key) {
        None => Err(DecodeError::MissingField(String::from_str(key))),
        Some(value) => match value.as_str() {
            None => Err(DecodeError::WrongType(String::from_str(key))),
            Some(text) => match Timestamp::parse(text) {
                Some(instant) => Ok(instant),
                None => Err(DecodeError::WrongType(String::from_str(key))),
            },
        },
    }
}

} // verus!
