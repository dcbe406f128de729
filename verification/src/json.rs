//! The JSON grammar: one document per line, with the members `operation`,
//! `username` and `eventTime`.

use crate::event::{
    outcome_for, outcome_view, scaled_nanos, to_nanos, EventModel, Field, ParseError, ParseReason,
    ParsedEvent,
};
use crate::guard::{refusal, refuse};
use rustc_serialize::json::Json;
use vstd::prelude::*;
use vstd::string::*;
use vstd::utf8::encode_utf8;

verus! {

/// Nanoseconds in a millisecond.
pub const NANOS_PER_MILLI: i64 = 1_000_000;

/// A parsed JSON document of the outside reader.
#[verifier::external_type_specification]
#[verifier::external_body]
pub struct ExJson(Json);

/// What a member of a JSON object holds, as far as a line's fields go: text,
/// an integer that fits in 64 bits with a sign, or anything else.
#[derive(Debug, PartialEq, Eq)]
pub enum Member {
    Text(String),
    Integer(i64),
    Other,
}

/// The mathematical value of a [`Member`].
pub enum MemberModel {
    Text(Seq<char>),
    Integer(int),
    Other,
}

impl View for Member {
    type V = MemberModel;

    open spec fn view(&self) -> MemberModel {
        match self {
            Member::Text(s) => MemberModel::Text(s@),
            Member::Integer(n) => MemberModel::Integer(*n as int),
            Member::Other => MemberModel::Other,
        }
    }
}

/// The value of a member that may be missing.
pub open spec fn optional_member(member: Option<Member>) -> Option<MemberModel> {
    match member {
        Some(m) => Some(m@),
        None => None,
    }
}

/// The members of a parsed document, by name. A document that is no object
/// has none.
pub uninterp spec fn json_members(doc: Json) -> Map<Seq<char>, MemberModel>;

/// The members of the document that a text is, or `None` where the text is no
/// JSON document.
pub uninterp spec fn json_text_members(text: Seq<char>) -> Option<Map<Seq<char>, MemberModel>>;

/// `Json::from_str` of rustc-serialize, with its error dropped. The reader's
/// answer depends on the text alone, so it is given a name: the document
/// comes back exactly where the text is one, and its members are the text's.
/// Lines that `refusal` names are kept out, for on them the reader may not
/// return: it descends once for each open array or object, cuts the
/// positions of the keys that it holds to 16 bits, counts the items of an
/// array in 32 bits, adds up an exponent in a machine word, and on a comma
/// before a closing brace drops the key of the enclosing object and then
/// fails for want of it.
#[verifier::external_body]
fn json_from_str(line: &str) -> (r: Option<Json>)
    requires
        refusal(encode_utf8(line@)) is None,
    ensures
        match r {
            Some(doc) => json_text_members(line@) == Some(json_members(doc)),
            None => json_text_members(line@) is None,
        },
{
    Json::from_str(line).ok()
}

/// `Json::find` of rustc-serialize, and `Json::as_string` and `Json::as_i64`
/// on what it found: the member of that name, handed out as a plain value.
/// Text where `as_string` gives some, an integer where `as_i64` gives some,
/// and `Other` for the rest.
#[verifier::external_body]
fn json_member(doc: &Json, key: &str) -> (r: Option<Member>)
    ensures
        r is Some <==> json_members(*doc).contains_key(key@),
        r matches Some(m) ==> m@ == json_members(*doc)[key@],
{
    doc.find(key).map(
        |v|
            match (v.as_string(), v.as_i64()) {
                (Some(s), _) => Member::Text(s.to_string()),
                (_, Some(n)) => Member::Integer(n),
                _ => Member::Other,
            },
    )
}

/// The member of that name, if the object has one.
pub open spec fn member_at(members: Map<Seq<char>, MemberModel>, key: Seq<char>) -> Option<
    MemberModel,
> {
    if members.contains_key(key) {
        Some(members[key])
    } else {
        None
    }
}

/// The text of a member that must be text.
pub open spec fn text_of(member: Option<MemberModel>, field: Field) -> Result<
    Seq<char>,
    ParseReason,
> {
    match member {
        None => Err(ParseReason::MissingField(field)),
        Some(MemberModel::Text(s)) => Ok(s),
        Some(_) => Err(ParseReason::WrongType(field)),
    }
}

/// The number of a member that must be an integer.
pub open spec fn integer_of(member: Option<MemberModel>, field: Field) -> Result<
    int,
    ParseReason,
> {
    match member {
        None => Err(ParseReason::MissingField(field)),
        Some(MemberModel::Integer(n)) => Ok(n),
        Some(_) => Err(ParseReason::WrongType(field)),
    }
}

/// The event that three members give: the operation and the user name must be
/// text, the event time an integer count of milliseconds whose nanoseconds
/// fit in 64 bits. The first member that fails, in that order, gives the
/// reason.
pub open spec fn members_event(
    operation: Option<MemberModel>,
    username: Option<MemberModel>,
    event_time: Option<MemberModel>,
) -> Result<EventModel, ParseReason> {
    match text_of(operation, Field::Operation) {
        Err(reason) => Err(reason),
        Ok(op) => match text_of(username, Field::Username) {
            Err(reason) => Err(reason),
            Ok(user) => match integer_of(event_time, Field::EventTime) {
                Err(reason) => Err(reason),
                Ok(millis) => match scaled_nanos(millis, NANOS_PER_MILLI as int) {
                    None => Err(ParseReason::TimestampOutOfRange),
                    Some(nanos) => Ok(EventModel { operation: op, username: user, nanos }),
                },
            },
        },
    }
}

/// What the fields of a JSON line give: the reason for which the line is kept
/// from the reader; else that it is no JSON; else what its three members give.
pub open spec fn json_line_found(line: Seq<char>) -> Result<EventModel, ParseReason> {
    match refusal(encode_utf8(line)) {
        Some(reason) => Err(reason),
        None => match json_text_members(line) {
            None => Err(ParseReason::InvalidJson),
            Some(members) => members_event(
                member_at(members, "operation"@),
                member_at(members, "username"@),
                member_at(members, "eventTime"@),
            ),
        },
    }
}

/// Builds the event of a line from its three members, or the error that
/// names the line.
pub fn event_from_members(
    line: &str,
    operation: Option<Member>,
    username: Option<Member>,
    event_time: Option<Member>,
) -> (r: Result<ParsedEvent, ParseError>)
    ensures
        outcome_view(r) == outcome_for(
            line@,
            members_event(
                optional_member(operation),
                optional_member(username),
                optional_member(event_time),
            ),
        ),
{
    let op = match operation {
        None => {
            return Err(ParseError::new(line, ParseReason::MissingField(Field::Operation)));
        },
        Some(Member::Text(s)) => s,
        Some(_) => {
            return Err(ParseError::new(line, ParseReason::WrongType(Field::Operation)));
        },
    };
    let user = match username {
        None => {
            return Err(ParseError::new(line, ParseReason::MissingField(Field::Username)));
        },
        Some(Member::Text(s)) => s,
        Some(_) => {
            return Err(ParseError::new(line, ParseReason::WrongType(Field::Username)));
        },
    };
    let millis = match event_time {
        None => {
            return Err(ParseError::new(line, ParseReason::MissingField(Field::EventTime)));
        },
        Some(Member::Integer(n)) => n,
        Some(_) => {
            return Err(ParseError::new(line, ParseReason::WrongType(Field::EventTime)));
        },
    };
    match to_nanos(millis, NANOS_PER_MILLI) {
        None => Err(ParseError::new(line, ParseReason::TimestampOutOfRange)),
        Some(nanos) => Ok(ParsedEvent { operation: op, username: user, event_time_nanos: nanos }),
    }
}

/// Reads one JSON line.
pub fn parse_json_line(line: &str) -> (r: Result<ParsedEvent, ParseError>)
    ensures
        outcome_view(r) == outcome_for(line@, json_line_found(line@)),
{
    match refuse(line.as_bytes()) {
        Some(reason) => {
            return Err(ParseError::new(line, reason));
        },
        None => {},
    }
    match json_from_str(line) {
        None => Err(ParseError::new(line, ParseReason::InvalidJson)),
        Some(doc) => {
            let operation = json_member(&doc, "operation");
            let username = json_member(&doc, "username");
            let event_time = json_member(&doc, "eventTime");
            event_from_members(line, operation, username, event_time)
        },
    }
}

} // verus!
