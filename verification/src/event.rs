//! The event that one log line yields, and the error that a line yields
//! when it cannot be read.

use vstd::prelude::*;
use vstd::string::*;

verus! {

/// The largest and smallest nanosecond timestamps that an event can carry.
pub open spec fn nanos_in_range(nanos: int) -> bool {
    i64::MIN <= nanos <= i64::MAX
}

/// One audit event: who did what, and when, in nanoseconds since the epoch.
#[derive(Debug, PartialEq, Eq)]
pub struct ParsedEvent {
    pub operation: String,
    pub username: String,
    pub event_time_nanos: i64,
}

/// The mathematical value of a [`ParsedEvent`].
pub struct EventModel {
    pub operation: Seq<char>,
    pub username: Seq<char>,
    pub nanos: int,
}

impl View for ParsedEvent {
    type V = EventModel;

    open spec fn view(&self) -> EventModel {
        EventModel {
            operation: self.operation@,
            username: self.username@,
            nanos: self.event_time_nanos as int,
        }
    }
}

impl Clone for ParsedEvent {
    fn clone(&self) -> (copy: Self)
        ensures
            copy@ == self@,
    {
        ParsedEvent {
            operation: self.operation.clone(),
            username: self.username.clone(),
            event_time_nanos: self.event_time_nanos,
        }
    }
}

/// The three fields that every line must supply.
#[derive(Clone, Copy, Debug, PartialEq, Eq)]
pub enum Field {
    Operation,
    Username,
    EventTime,
}

/// Why a line yielded no event.
#[derive(Clone, Copy, Debug, PartialEq, Eq)]
pub enum ParseReason {
    /// The line nests arrays and objects deeper than the JSON reader is
    /// given.
    NestingTooDeep,
    /// The keys on the way to one value are longer together than the JSON
    /// reader holds.
    KeysTooLong,
    /// A number in the line has an exponent that does not fit in a machine
    /// word.
    ExponentTooLong,
    /// The line has more commas than the JSON reader counts.
    TooManyItems,
    /// The line is not a JSON document.
    InvalidJson,
    /// The document has no member of that name.
    MissingField(Field),
    /// The member is there but holds a value of another type.
    WrongType(Field),
    /// No `date time` pair stands in the line.
    NoTimestamp,
    /// The `date time` pair that was found is not a calendar date and time.
    BadTimestamp,
    /// No `ugi=` marker with a name behind it stands in the line.
    NoUsername,
    /// No `cmd=` marker with a name behind it stands in the line.
    NoOperation,
    /// The time does not fit in 64 bits once it is counted in nanoseconds.
    TimestampOutOfRange,
}

/// A line that was skipped, with the reason.
#[derive(Debug, PartialEq, Eq)]
pub struct ParseError {
    pub line: String,
    pub reason: ParseReason,
}

/// The mathematical value of a [`ParseError`].
pub struct ErrorModel {
    pub line: Seq<char>,
    pub reason: ParseReason,
}

impl View for ParseError {
    type V = ErrorModel;

    open spec fn view(&self) -> ErrorModel {
        ErrorModel { line: self.line@, reason: self.reason }
    }
}

impl ParseError {
    /// The error for `line`, skipped for `reason`.
    pub fn new(line: &str, reason: ParseReason) -> (e: ParseError)
        ensures
            e@ == (ErrorModel { line: line@, reason }),
    {
        ParseError { line: String::from_str(line), reason }
    }
}

/// What reading one line gave, as mathematical values.
pub open spec fn outcome_view(r: Result<ParsedEvent, ParseError>) -> Result<
    EventModel,
    ErrorModel,
> {
    match r {
        Ok(event) => Ok(event@),
        Err(error) => Err(error@),
    }
}

/// The outcome for `line` when its fields gave `found`: the event, or the
/// error that names the line.
pub open spec fn outcome_for(line: Seq<char>, found: Result<EventModel, ParseReason>) -> Result<
    EventModel,
    ErrorModel,
> {
    match found {
        Ok(event) => Ok(event),
        Err(reason) => Err(ErrorModel { line, reason }),
    }
}

/// The time `units * scale` as nanoseconds, when it fits in 64 bits.
pub open spec fn scaled_nanos(units: int, scale: int) -> Option<int> {
    if nanos_in_range(units * scale) {
        Some(units * scale)
    } else {
        None
    }
}

/// Multiplies a time by the number of nanoseconds in its unit.
pub fn to_nanos(units: i64, scale: i64) -> (r: Option<i64>)
    ensures
        r matches Some(n) ==> scaled_nanos(units as int, scale as int) == Some(n as int),
        r is None ==> scaled_nanos(units as int, scale as int) is None,
{
    units.checked_mul(scale)
}

} // verus!
