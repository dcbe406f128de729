//! Reading the lines of one file: every line gives an event or is skipped
//! with its reason, and the lines that follow are read all the same.

use crate::event::{outcome_for, outcome_view, ErrorModel, EventModel, ParseError, ParsedEvent};
use crate::grammar::{detect, detected, Grammar, LogFormat};
use crate::json::{json_line_found, parse_json_line};
use crate::metrics::event_views;
use crate::text::{text_line_found, TextParser};
use vstd::prelude::*;
use vstd::string::*;

verus! {

/// What reading one line gave.
pub type Outcome = Result<EventModel, ErrorModel>;

/// The events of the lines that were read, in the order of the lines.
pub open spec fn accepted(outcomes: Seq<Outcome>) -> Seq<EventModel>
    decreases outcomes.len(),
{
    if outcomes.len() == 0 {
        Seq::empty()
    } else {
        match outcomes.last() {
            Ok(event) => accepted(outcomes.drop_last()).push(event),
            Err(_) => accepted(outcomes.drop_last()),
        }
    }
}

/// The errors of the lines that were skipped, in the order of the lines.
pub open spec fn rejected(outcomes: Seq<Outcome>) -> Seq<ErrorModel>
    decreases outcomes.len(),
{
    if outcomes.len() == 0 {
        Seq::empty()
    } else {
        match outcomes.last() {
            Ok(_) => rejected(outcomes.drop_last()),
            Err(error) => rejected(outcomes.drop_last()).push(error),
        }
    }
}

/// The characters of each line.
pub open spec fn line_views(lines: Seq<String>) -> Seq<Seq<char>> {
    lines.map_values(|line: String| line@)
}

/// The views of the errors, in order.
pub open spec fn error_views(errors: Seq<ParseError>) -> Seq<ErrorModel> {
    errors.map_values(|e: ParseError| e@)
}

/// What each line gives when read as JSON.
pub open spec fn json_outcomes(lines: Seq<Seq<char>>) -> Seq<Outcome> {
    lines.map_values(|line: Seq<char>| outcome_for(line, json_line_found(line)))
}

/// What each line gives when read as text.
pub open spec fn text_outcomes(lines: Seq<Seq<char>>) -> Seq<Outcome> {
    lines.map_values(|line: Seq<char>| outcome_for(line, text_line_found(line)))
}

/// The grammar of a file under the configured format: it is judged by its
/// first line, and a file without lines by the empty line.
pub open spec fn file_grammar(lines: Seq<Seq<char>>, mode: LogFormat) -> Grammar {
    detected(
        if lines.len() > 0 {
            lines[0]
        } else {
            Seq::empty()
        },
        mode,
    )
}

/// What each line of a file gives under the configured format.
pub open spec fn file_outcomes(lines: Seq<Seq<char>>, mode: LogFormat) -> Seq<Outcome> {
    match file_grammar(lines, mode) {
        Grammar::Json => json_outcomes(lines),
        Grammar::Text => text_outcomes(lines),
    }
}

/// What reading one file gave: the events of its lines, and the lines that
/// were skipped.
#[derive(Debug, PartialEq, Eq)]
pub struct FileReport {
    pub events: Vec<ParsedEvent>,
    pub rejected: Vec<ParseError>,
}

impl FileReport {
    /// Whether the report holds exactly what the outcomes say.
    pub open spec fn reports(&self, outcomes: Seq<Outcome>) -> bool {
        &&& event_views(self.events@) == accepted(outcomes)
        &&& error_views(self.rejected@) == rejected(outcomes)
    }
}

/// Files one more outcome in a report.
fn record(report: &mut FileReport, outcome: Result<ParsedEvent, ParseError>, Ghost(before): Ghost<
    Seq<Outcome>,
>)
    requires
        old(report).reports(before),
    ensures
        final(report).reports(before.push(outcome_view(outcome))),
{
    let ghost after = before.push(outcome_view(outcome));
    assert(after.drop_last() =~= before);
    match outcome {
        Ok(event) => {
            report.events.push(event);
            assert(event_views(report.events@) =~= accepted(after));
        },
        Err(error) => {
            report.rejected.push(error);
            assert(error_views(report.rejected@) =~= rejected(after));
        },
    }
}

/// Reads every line of a JSON file.
pub fn handle_json(lines: &Vec<String>) -> (report: FileReport)
    ensures
        report.reports(json_outcomes(line_views(lines@))),
{
    let mut report = FileReport { events: Vec::new(), rejected: Vec::new() };
    let ghost all = json_outcomes(line_views(lines@));
    let n = lines.len();
    let mut i: usize = 0;
    assert(event_views(report.events@) =~= accepted(all.take(0)));
    assert(error_views(report.rejected@) =~= rejected(all.take(0)));
    while i < n
        invariant
            n == lines@.len(),
            all == json_outcomes(line_views(lines@)),
            i <= n,
            report.reports(all.take(i as int)),
        decreases n - i,
    {
        let outcome = parse_json_line(lines[i].as_str());
        assert(all.take(i + 1) =~= all.take(i as int).push(outcome_view(outcome)));
        record(&mut report, outcome, Ghost(all.take(i as int)));
        i += 1;
    }
    assert(all.take(n as int) =~= all);
    report
}

/// Reads every line of a text file.
pub fn handle_text(parser: &TextParser, lines: &Vec<String>) -> (report: FileReport)
    ensures
        report.reports(text_outcomes(line_views(lines@))),
{
    let mut report = FileReport { events: Vec::new(), rejected: Vec::new() };
    let ghost all = text_outcomes(line_views(lines@));
    let n = lines.len();
    let mut i: usize = 0;
    assert(event_views(report.events@) =~= accepted(all.take(0)));
    assert(error_views(report.rejected@) =~= rejected(all.take(0)));
    while i < n
        invariant
            n == lines@.len(),
            all == text_outcomes(line_views(lines@)),
            i <= n,
            report.reports(all.take(i as int)),
        decreases n - i,
    {
        let outcome = parser.parse_line(lines[i].as_str());
        assert(all.take(i + 1) =~= all.take(i as int).push(outcome_view(outcome)));
        record(&mut report, outcome, Ghost(all.take(i as int)));
        i += 1;
    }
    assert(all.take(n as int) =~= all);
    report
}

/// Reads the lines of one file by the grammar that the configured format and
/// the file's first line give.
pub fn parse_file(parser: &TextParser, lines: &Vec<String>, mode: LogFormat) -> (report:
    FileReport)
    ensures
        report.reports(file_outcomes(line_views(lines@), mode)),
{
    let grammar = if lines.len() > 0 {
        detect(lines[0].as_str(), mode)
    } else {
        proof {
            reveal_strlit("");
        }
        assert(""@ =~= Seq::<char>::empty());
        detect("", mode)
    };
    match grammar {
        Grammar::Json => handle_json(lines),
        Grammar::Text => handle_text(parser, lines),
    }
}

/// Every line gives an event or an error, never both and never neither.
pub proof fn every_line_is_accounted_for(outcomes: Seq<Outcome>)
    ensures
        accepted(outcomes).len() + rejected(outcomes).len() == outcomes.len(),
    decreases outcomes.len(),
{
    if outcomes.len() > 0 {
        every_line_is_accounted_for(outcomes.drop_last());
    }
}

/// The events of one run of lines followed by another are the events of the
/// first followed by those of the second.
pub proof fn accepted_of_concat(first: Seq<Outcome>, second: Seq<Outcome>)
    ensures
        accepted(first + second) == accepted(first) + accepted(second),
    decreases second.len(),
{
    if second.len() == 0 {
        assert(first + second =~= first);
        assert(accepted(first) + accepted(second) =~= accepted(first));
    } else {
        accepted_of_concat(first, second.drop_last());
        assert((first + second).drop_last() =~= first + second.drop_last());
        assert((first + second).last() == second.last());
        assert(accepted(first + second) =~= accepted(first) + accepted(second));
    }
}

/// Where every line is valid, every line gives its event.
pub proof fn valid_lines_all_give_events(outcomes: Seq<Outcome>)
    requires
        forall|i: int| 0 <= i < outcomes.len() ==> outcomes[i] is Ok,
    ensures
        accepted(outcomes) == Seq::new(outcomes.len(), |i: int| outcomes[i]->Ok_0),
        rejected(outcomes).len() == 0,
    decreases outcomes.len(),
{
    if outcomes.len() > 0 {
        let rest = outcomes.drop_last();
        assert forall|i: int| 0 <= i < rest.len() implies rest[i] is Ok by {
            assert(rest[i] == outcomes[i]);
        }
        valid_lines_all_give_events(rest);
        assert(outcomes.last() is Ok);
    }
    assert(accepted(outcomes) =~= Seq::new(outcomes.len(), |i: int| outcomes[i]->Ok_0));
}

/// One malformed line among valid ones is skipped and nothing else is lost:
/// the file gives the events of all its other lines, in order, and the one
/// error.
pub proof fn one_malformed_line_is_skipped(outcomes: Seq<Outcome>, bad: int)
    requires
        0 <= bad < outcomes.len(),
        outcomes[bad] is Err,
        forall|i: int| 0 <= i < outcomes.len() && i != bad ==> outcomes[i] is Ok,
    ensures
        accepted(outcomes).len() == outcomes.len() - 1,
        accepted(outcomes) == accepted(outcomes.remove(bad)),
        accepted(outcomes.remove(bad)) == Seq::new(
            (outcomes.len() - 1) as nat,
            |i: int| outcomes.remove(bad)[i]->Ok_0,
        ),
        rejected(outcomes) == seq![outcomes[bad]->Err_0],
{
    let head = outcomes.take(bad);
    let tail = outcomes.skip(bad + 1);
    let one = seq![outcomes[bad]];
    assert(outcomes =~= head + one + tail);
    assert(outcomes.remove(bad) =~= head + tail);
    accepted_of_concat(head, one);
    accepted_of_concat(head + one, tail);
    accepted_of_concat(head, tail);
    assert(one.drop_last() =~= Seq::<Outcome>::empty());
    assert(one.last() == outcomes[bad]);
    assert(accepted(one.drop_last()) =~= Seq::<EventModel>::empty());
    assert(rejected(one.drop_last()) =~= Seq::<ErrorModel>::empty());
    assert(accepted(one) =~= Seq::<EventModel>::empty());
    assert(accepted(head) + accepted(one) =~= accepted(head));
    let others = outcomes.remove(bad);
    assert forall|i: int| 0 <= i < others.len() implies others[i] is Ok by {
        if i < bad {
            assert(others[i] == outcomes[i]);
        } else {
            assert(others[i] == outcomes[i + 1]);
        }
    }
    valid_lines_all_give_events(others);
    every_line_is_accounted_for(outcomes);
    every_line_is_accounted_for(others);
    rejected_of_concat(head, one);
    rejected_of_concat(head + one, tail);
    rejected_of_concat(head, tail);
    assert(rejected(one) =~= seq![outcomes[bad]->Err_0]);
    assert(rejected(head).len() + rejected(tail).len() == 0);
    assert(rejected(outcomes) =~= seq![outcomes[bad]->Err_0]);
}

/// The errors of one run of lines followed by another are the errors of the
/// first followed by those of the second.
pub proof fn rejected_of_concat(first: Seq<Outcome>, second: Seq<Outcome>)
    ensures
        rejected(first + second) == rejected(first) + rejected(second),
    decreases second.len(),
{
    if second.len() == 0 {
        assert(first + second =~= first);
        assert(rejected(first) + rejected(second) =~= rejected(first));
    } else {
        rejected_of_concat(first, second.drop_last());
        assert((first + second).drop_last() =~= first + second.drop_last());
        assert((first + second).last() == second.last());
        assert(rejected(first + second) =~= rejected(first) + rejected(second));
    }
}

} // verus!
