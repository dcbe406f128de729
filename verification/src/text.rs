//! The free-text grammar of audit logs: a date and time, a `ugi=` marker
//! with the user behind it, and a `cmd=` marker with the operation behind it.

use crate::event::{
    outcome_for, outcome_view, scaled_nanos, to_nanos, EventModel, ParseError, ParseReason,
    ParsedEvent,
};
use crate::strings::optional_text;
use chrono::NaiveDateTime;
use regex::Regex;
use vstd::prelude::*;
use vstd::string::*;

verus! {

/// Nanoseconds in a second.
pub const NANOS_PER_SECOND: i64 = 1_000_000_000;

/// The pattern whose whole match is the date and time of a line.
pub open spec fn date_pattern() -> Seq<char> {
    r"(?P<date>\S*) (?P<time>[\d:]+)"@
}

/// The pattern whose first group is the user of a line.
pub open spec fn user_pattern() -> Seq<char> {
    r".*ugi=(?P<user>[\w]+)"@
}

/// The pattern whose first group is the operation of a line.
pub open spec fn operation_pattern() -> Seq<char> {
    r".*cmd=(?P<operation>[\w]+)"@
}

/// The form in which a line states its date and time.
pub open spec fn date_form() -> Seq<char> {
    "%Y-%m-%d %H:%M:%S"@
}

/// A compiled pattern of the outside regex engine.
#[verifier::external_type_specification]
#[verifier::external_body]
pub struct ExRegex(Regex);

/// The pattern that `Regex::new` made a compiled regex from, or `None` for
/// a regex that was made in another way.
pub uninterp spec fn regex_pattern(re: Regex) -> Option<Seq<char>>;

/// What the given group of a pattern holds in the leftmost match of the
/// pattern in a text: `None` where the pattern matches nowhere in the text
/// or the group took no part in the match.
pub uninterp spec fn regex_capture(pattern: Seq<char>, text: Seq<char>, group: nat) -> Option<
    Seq<char>,
>;

/// The seconds from the epoch to the date and time that a text states in a
/// form, read as UTC, or `None` where the text is not of that form.
pub uninterp spec fn utc_epoch_seconds(text: Seq<char>, form: Seq<char>) -> Option<int>;

/// `Regex::new` of regex, with its error dropped. A regex that comes back
/// was made from the pattern given; whether one comes back is left open.
#[verifier::external_body]
fn compile(pattern: &str) -> (r: Option<Regex>)
    ensures
        r matches Some(re) ==> regex_pattern(re) == Some(pattern@),
{
    Regex::new(pattern).ok()
}

/// `Regex::captures` of regex, then `Captures::get` and `Match::as_str`: the
/// text of one group of the leftmost match, copied out. For a regex that
/// `Regex::new` made it depends on the pattern and the text alone, so it is
/// given a name.
#[verifier::external_body]
fn capture(re: &Regex, text: &str, group: usize) -> (r: Option<String>)
    ensures
        regex_pattern(*re) matches Some(pattern) ==> match r {
            Some(s) => regex_capture(pattern, text@, group as nat) == Some(s@),
            None => regex_capture(pattern, text@, group as nat) is None,
        },
{
    re.captures(text).and_then(|found| found.get(group)).map(|m| m.as_str().to_string())
}

/// `NaiveDateTime::parse_from_str` of chrono, with its error dropped, then
/// `and_utc` and `timestamp`: the seconds from the epoch to the stated time
/// in UTC. It depends on the text and the form alone, so it is given a name.
#[verifier::external_body]
fn parse_utc_seconds(text: &str, form: &str) -> (r: Option<i64>)
    ensures
        match r {
            Some(seconds) => utc_epoch_seconds(text@, form@) == Some(seconds as int),
            None => utc_epoch_seconds(text@, form@) is None,
        },
{
    NaiveDateTime::parse_from_str(text, form).ok().map(|t| t.and_utc().timestamp())
}

/// The event that the pieces of a text line give. `seconds` is `None` where
/// no date and time was found, and holds `None` where what was found is no
/// calendar time. The pieces are judged in the order time, user, operation,
/// and the first that is missing gives the reason.
pub open spec fn tokens_event(
    seconds: Option<Option<int>>,
    username: Option<Seq<char>>,
    operation: Option<Seq<char>>,
) -> Result<EventModel, ParseReason> {
    match seconds {
        None => Err(ParseReason::NoTimestamp),
        Some(None) => Err(ParseReason::BadTimestamp),
        Some(Some(secs)) => match username {
            None => Err(ParseReason::NoUsername),
            Some(user) => match operation {
                None => Err(ParseReason::NoOperation),
                Some(op) => match scaled_nanos(secs, NANOS_PER_SECOND as int) {
                    None => Err(ParseReason::TimestampOutOfRange),
                    Some(nanos) => Ok(EventModel { operation: op, username: user, nanos }),
                },
            },
        },
    }
}

/// The seconds that the date and time of a line stand for, if the line has
/// one.
pub open spec fn line_seconds(line: Seq<char>) -> Option<Option<int>> {
    match regex_capture(date_pattern(), line, 0) {
        None => None,
        Some(stamp) => Some(utc_epoch_seconds(stamp, date_form())),
    }
}

/// What the pieces of a text line give.
pub open spec fn text_line_found(line: Seq<char>) -> Result<EventModel, ParseReason> {
    tokens_event(
        line_seconds(line),
        regex_capture(user_pattern(), line, 1),
        regex_capture(operation_pattern(), line, 1),
    )
}

/// The view of the seconds that a line's date and time gave.
pub open spec fn seconds_view(seconds: Option<Option<i64>>) -> Option<Option<int>> {
    match seconds {
        None => None,
        Some(None) => Some(None),
        Some(Some(s)) => Some(Some(s as int)),
    }
}

/// Builds the event of a line from its pieces, or the error that names the
/// line.
pub fn event_from_tokens(
    line: &str,
    seconds: Option<Option<i64>>,
    username: Option<String>,
    operation: Option<String>,
) -> (r: Result<ParsedEvent, ParseError>)
    ensures
        outcome_view(r) == outcome_for(
            line@,
            tokens_event(seconds_view(seconds), optional_text(username), optional_text(operation)),
        ),
{
    let secs = match seconds {
        None => {
            return Err(ParseError::new(line, ParseReason::NoTimestamp));
        },
        Some(None) => {
            return Err(ParseError::new(line, ParseReason::BadTimestamp));
        },
        Some(Some(s)) => s,
    };
    let user = match username {
        None => {
            return Err(ParseError::new(line, ParseReason::NoUsername));
        },
        Some(s) => s,
    };
    let op = match operation {
        None => {
            return Err(ParseError::new(line, ParseReason::NoOperation));
        },
        Some(s) => s,
    };
    match to_nanos(secs, NANOS_PER_SECOND) {
        None => Err(ParseError::new(line, ParseReason::TimestampOutOfRange)),
        Some(nanos) => Ok(ParsedEvent { operation: op, username: user, event_time_nanos: nanos }),
    }
}

/// The three compiled patterns of the text grammar.
pub struct TextParser {
    date: Regex,
    user: Regex,
    operation: Regex,
}

impl TextParser {
    #[verifier::type_invariant]
    spec fn patterns_fit(self) -> bool {
        self.holds_grammar()
    }

    /// The regex that finds the date and time of a line.
    pub closed spec fn date_regex(&self) -> Regex {
        self.date
    }

    /// The regex that finds the user of a line.
    pub closed spec fn user_regex(&self) -> Regex {
        self.user
    }

    /// The regex that finds the operation of a line.
    pub closed spec fn operation_regex(&self) -> Regex {
        self.operation
    }

    /// Whether the three regexes were made from the three patterns of the
    /// text grammar. Every parser does: lines are read by these patterns and
    /// no others.
    pub open spec fn holds_grammar(&self) -> bool {
        &&& regex_pattern(self.date_regex()) == Some(date_pattern())
        &&& regex_pattern(self.user_regex()) == Some(user_pattern())
        &&& regex_pattern(self.operation_regex()) == Some(operation_pattern())
    }

    /// Puts a parser together from what compiling the three patterns gave:
    /// there is one exactly where all three compiled, and it holds them.
    fn assemble(date: Option<Regex>, user: Option<Regex>, operation: Option<Regex>) -> (r: Option<
        TextParser,
    >)
        requires
            date matches Some(re) ==> regex_pattern(re) == Some(date_pattern()),
            user matches Some(re) ==> regex_pattern(re) == Some(user_pattern()),
            operation matches Some(re) ==> regex_pattern(re) == Some(operation_pattern()),
        ensures
            r is Some <==> date is Some && user is Some && operation is Some,
            r matches Some(parser) ==> {
                &&& Some(parser.date_regex()) == date
                &&& Some(parser.user_regex()) == user
                &&& Some(parser.operation_regex()) == operation
                &&& parser.holds_grammar()
            },
    {
        match (date, user, operation) {
            (Some(date), Some(user), Some(operation)) => Some(TextParser { date, user, operation }),
            _ => None,
        }
    }

    /// Compiles the three patterns of the text grammar and makes a parser of
    /// them. Whether they compile is the regex engine's to say; a parser
    /// that comes back reads lines by exactly these three patterns.
    pub fn new() -> (r: Option<TextParser>)
        ensures
            r matches Some(parser) ==> parser.holds_grammar(),
    {
        let date = compile(r"(?P<date>\S*) (?P<time>[\d:]+)");
        let user = compile(r".*ugi=(?P<user>[\w]+)");
        let operation = compile(r".*cmd=(?P<operation>[\w]+)");
        Self::assemble(date, user, operation)
    }

    /// Reads one text line.
    pub fn parse_line(&self, line: &str) -> (r: Result<ParsedEvent, ParseError>)
        ensures
            outcome_view(r) == outcome_for(line@, text_line_found(line@)),
    {
        proof {
            use_type_invariant(self);
        }
        let seconds = match capture(&self.date, line, 0) {
            None => None,
            Some(stamp) => Some(parse_utc_seconds(stamp.as_str(), "%Y-%m-%d %H:%M:%S")),
        };
        let username = capture(&self.user, line, 1);
        let operation = capture(&self.operation, line, 1);
        event_from_tokens(line, seconds, username, operation)
    }
}

} // verus!
