//! What holds of the library as a whole: of a line and its point, of the
//! worker over any course of events, and of a store that is written twice.

use crate::decimal::decimal;
use crate::event::{nanos_in_range, EventModel, ParseReason};
use crate::grammar::LogFormat;
use crate::ingest::{accepted, file_outcomes};
use crate::guard::refusal;
use crate::json::{json_line_found, json_text_members, member_at, MemberModel, NANOS_PER_MILLI};
use crate::metrics::{payload_empty_iff_no_points, payload_of, point_line};
use crate::text::{
    date_form, date_pattern, operation_pattern, regex_capture, text_line_found, user_pattern,
    utc_epoch_seconds, NANOS_PER_SECOND,
};
use crate::worker::{takes_delivery, ActionModel, InputModel, Stage, WorkerModel};
use vstd::prelude::*;
use vstd::utf8::encode_utf8;

verus! {

/// A JSON line whose document holds the operation and the user as text and
/// the event time as an integer gives the event with the time in
/// nanoseconds, and the event gives the line of its point. The line must
/// stay within what the reader can hold (its nesting, the keys on the way to
/// one value, its exponents and its commas), and the nanoseconds must fit in
/// 64 bits with a sign.
pub proof fn json_line_gives_event_and_point(
    line: Seq<char>,
    members: Map<Seq<char>, MemberModel>,
    operation: Seq<char>,
    username: Seq<char>,
    millis: int,
)
    requires
        refusal(encode_utf8(line)) is None,
        json_text_members(line) == Some(members),
        member_at(members, "operation"@) == Some(MemberModel::Text(operation)),
        member_at(members, "username"@) == Some(MemberModel::Text(username)),
        member_at(members, "eventTime"@) == Some(MemberModel::Integer(millis)),
        nanos_in_range(millis * 1_000_000),
    ensures
        json_line_found(line) == Ok::<EventModel, ParseReason>(
            EventModel { operation, username, nanos: millis * 1_000_000 },
        ),
        point_line(EventModel { operation, username, nanos: millis * 1_000_000 })
            == "operation,name="@ + operation + ",username="@ + username + " value=1i "@ + decimal(
            millis * 1_000_000,
        ) + "\n"@,
{
    assert(NANOS_PER_MILLI == 1_000_000);
}

/// A text line with a date and time, a user behind `ugi=` and an operation
/// behind `cmd=` gives the event with the time in nanoseconds: the seconds
/// from the epoch to that date and time in UTC, times a thousand million.
/// The nanoseconds must fit in 64 bits with a sign.
pub proof fn text_line_gives_event(
    line: Seq<char>,
    stamp: Seq<char>,
    seconds: int,
    username: Seq<char>,
    operation: Seq<char>,
)
    requires
        regex_capture(date_pattern(), line, 0) == Some(stamp),
        utc_epoch_seconds(stamp, date_form()) == Some(seconds),
        regex_capture(user_pattern(), line, 1) == Some(username),
        regex_capture(operation_pattern(), line, 1) == Some(operation),
        nanos_in_range(seconds * 1_000_000_000),
    ensures
        text_line_found(line) == Ok::<EventModel, ParseReason>(
            EventModel { operation, username, nanos: seconds * 1_000_000_000 },
        ),
{
    assert(NANOS_PER_SECOND == 1_000_000_000);
}

/// Whatever the worker is told, it stays well formed.
pub proof fn next_keeps_well_formed(w: WorkerModel, input: InputModel)
    requires
        w.wf(),
    ensures
        w.next(input).0.wf(),
{
}

/// Whatever the worker is told, its settings stay as they are.
pub proof fn next_keeps_settings(w: WorkerModel, input: InputModel)
    ensures
        w.next(input).0.config == w.config,
        w.next(input).0.policy == w.policy,
{
}

/// A pattern that matches no file gives an empty batch: the delivery is
/// acknowledged at once, and nothing is written.
pub proof fn empty_expansion_is_acknowledged_unwritten(w: WorkerModel)
    requires
        w.wf(),
        w.stage is Expanding,
    ensures
        ({
            let (after, step) = w.next(InputModel::Expanded { paths: Seq::empty() });
            &&& step.action == ActionModel::Acknowledge { tag: w.tag }
            &&& after.stage is Acknowledging
            &&& after.points.len() == 0
        }),
{
}

/// The worker writes only a batch that holds points, and the payload is the
/// lines of those points: an empty payload is never written.
pub proof fn write_carries_points(w: WorkerModel, input: InputModel)
    requires
        w.wf(),
        w.next(input).1.action is Write,
    ensures
        ({
            let (after, step) = w.next(input);
            &&& after.stage is Writing
            &&& after.points.len() > 0
            &&& step.action == ActionModel::Write {
                database: w.config.database,
                payload: payload_of(after.points),
            }
            &&& payload_of(after.points).len() > 0
        }),
{
    payload_empty_iff_no_points(w.next(input).0.points);
}

/// The worker acknowledges the delivery at hand, and only once the metrics
/// store took its batch or when there is nothing to write.
pub proof fn acknowledgment_follows_the_write(w: WorkerModel, input: InputModel)
    requires
        w.wf(),
        w.next(input).1.action is Acknowledge,
    ensures
        ({
            let (after, step) = w.next(input);
            &&& step.action == ActionModel::Acknowledge { tag: w.tag }
            &&& after.stage is Acknowledging
            &&& (w.stage is Writing && input is WriteAccepted) || (after.points.len() == 0 && (
                w.stage is Expanding || w.stage is Reading))
        }),
{
}

/// After a failed write the worker waits and writes the same payload again,
/// until its budget is spent; then it leaves the delivery unacknowledged.
pub proof fn failed_write_is_retried_or_released(w: WorkerModel)
    requires
        w.wf(),
        w.stage is Writing,
    ensures
        ({
            let (after, step) = w.next(InputModel::WriteRejected);
            if w.policy.spent(w.failures + 1) {
                &&& after.stage is Releasing
                &&& step.action == ActionModel::Release { tag: w.tag }
            } else {
                &&& after.stage is Waiting
                &&& step.action is Delay
                &&& step.action->millis <= w.policy.max_delay_ms
                &&& after.next(InputModel::DelayElapsed).1.action == w.write()
            }
        }),
{
}

/// The worker and the actions it answered with, over a course of events.
pub open spec fn run(w: WorkerModel, inputs: Seq<InputModel>) -> (WorkerModel, Seq<ActionModel>)
    decreases inputs.len(),
{
    if inputs.len() == 0 {
        (w, Seq::empty())
    } else {
        let (mid, step) = w.next(inputs[0]);
        let (end, actions) = run(mid, inputs.skip(1));
        (end, seq![step.action] + actions)
    }
}

/// How many of the actions acknowledge a delivery.
pub open spec fn acknowledgments(actions: Seq<ActionModel>) -> nat
    decreases actions.len(),
{
    if actions.len() == 0 {
        0
    } else {
        acknowledgments(actions.skip(1)) + if actions[0] is Acknowledge {
            1nat
        } else {
            0nat
        }
    }
}

/// How many of the actions start on a delivery.
pub open spec fn deliveries_taken(actions: Seq<ActionModel>) -> nat
    decreases actions.len(),
{
    if actions.len() == 0 {
        0
    } else {
        deliveries_taken(actions.skip(1)) + if actions[0] is ExpandGlob {
            1nat
        } else {
            0nat
        }
    }
}

/// Whether the delivery at hand may still come to be acknowledged.
pub open spec fn unsettled(stage: Stage) -> bool {
    stage is Expanding || stage is Reading || stage is Writing || stage is Waiting
}

/// One for an unsettled stage.
pub open spec fn owed(stage: Stage) -> nat {
    if unsettled(stage) {
        1
    } else {
        0
    }
}

/// Over any course of events, no delivery is acknowledged twice: there are
/// at most as many acknowledgments as deliveries that the worker took, the
/// one at hand at the start counted in.
pub proof fn each_delivery_is_acknowledged_at_most_once(w: WorkerModel, inputs: Seq<InputModel>)
    requires
        w.wf(),
    ensures
        acknowledgments(run(w, inputs).1) + owed(run(w, inputs).0.stage) <= deliveries_taken(
            run(w, inputs).1,
        ) + owed(w.stage),
        run(w, inputs).0.wf(),
    decreases inputs.len(),
{
    if inputs.len() > 0 {
        let (mid, step) = w.next(inputs[0]);
        next_keeps_well_formed(w, inputs[0]);
        each_delivery_is_acknowledged_at_most_once(mid, inputs.skip(1));
        let rest = run(mid, inputs.skip(1)).1;
        let all = seq![step.action] + rest;
        assert(all.skip(1) =~= rest);
        assert(all[0] == step.action);
    }
}

/// The same delivery handled a second time gives the same actions as the
/// first time, and so the same payload: nothing of one delivery is left in
/// the worker for the next.
pub proof fn redelivery_repeats_the_actions(w: WorkerModel, inputs: Seq<InputModel>)
    requires
        takes_delivery(w.stage),
        inputs.len() > 0,
        inputs[0] is Delivered,
        takes_delivery(run(w, inputs).0.stage),
    ensures
        run(run(w, inputs).0, inputs).1 == run(w, inputs).1,
        run(run(w, inputs).0, inputs).0 == run(w, inputs).0,
{
    let again = run(w, inputs).0;
    run_keeps_settings(w, inputs);
    assert(w.next(inputs[0]).0 == again.next(inputs[0]).0);
    assert(w.next(inputs[0]).1 == again.next(inputs[0]).1);
}

/// The action with its tag left out.
pub open spec fn untagged(action: ActionModel) -> ActionModel {
    match action {
        ActionModel::Acknowledge { .. } => ActionModel::Acknowledge { tag: 0 },
        ActionModel::Release { .. } => ActionModel::Release { tag: 0 },
        _ => action,
    }
}

/// Whether two runs of actions are the same but for the tags in them.
pub open spec fn same_but_for_tags(first: Seq<ActionModel>, second: Seq<ActionModel>) -> bool {
    &&& first.len() == second.len()
    &&& forall|i: int| 0 <= i < first.len() ==> untagged(#[trigger] first[i]) == untagged(second[i])
}

/// Whether every acknowledgment and every release among the actions names
/// this tag.
pub open spec fn all_name(actions: Seq<ActionModel>, tag: u64) -> bool {
    forall|i: int|
        0 <= i < actions.len() ==> (match #[trigger] actions[i] {
            ActionModel::Acknowledge { tag: named } => named == tag,
            ActionModel::Release { tag: named } => named == tag,
            _ => true,
        })
}

/// Whether none of the events is a delivery.
pub open spec fn no_delivery(inputs: Seq<InputModel>) -> bool {
    forall|i: int| 0 <= i < inputs.len() ==> !(#[trigger] inputs[i] is Delivered)
}

/// Whether two workers are the same but for the tag of the delivery at hand.
pub open spec fn same_but_for_tag(first: WorkerModel, second: WorkerModel) -> bool {
    second == (WorkerModel { tag: second.tag, ..first })
}

/// The tag of a delivery decides nothing: two workers that differ in the
/// tag alone answer the same events with the same actions, each naming its
/// own tag, and differ in the tag alone afterwards.
pub proof fn tag_decides_nothing(
    first: WorkerModel,
    second: WorkerModel,
    inputs: Seq<InputModel>,
)
    requires
        same_but_for_tag(first, second),
        no_delivery(inputs),
    ensures
        same_but_for_tag(run(first, inputs).0, run(second, inputs).0),
        same_but_for_tags(run(first, inputs).1, run(second, inputs).1),
        all_name(run(first, inputs).1, first.tag),
        all_name(run(second, inputs).1, second.tag),
    decreases inputs.len(),
{
    if inputs.len() > 0 {
        let input = inputs[0];
        let rest = inputs.skip(1);
        assert(!(input is Delivered));
        let (first_mid, first_step) = first.next(input);
        let (second_mid, second_step) = second.next(input);
        assert(same_but_for_tag(first_mid, second_mid));
        assert(untagged(first_step.action) == untagged(second_step.action));
        assert forall|i: int| 0 <= i < rest.len() implies !(#[trigger] rest[i] is Delivered) by {
            assert(rest[i] == inputs[i + 1]);
        }
        tag_decides_nothing(first_mid, second_mid, rest);
        let first_rest = run(first_mid, rest).1;
        let second_rest = run(second_mid, rest).1;
        let first_all = seq![first_step.action] + first_rest;
        let second_all = seq![second_step.action] + second_rest;
        assert forall|i: int| 0 <= i < first_all.len() implies untagged(#[trigger] first_all[i])
            == untagged(second_all[i]) by {
            if i > 0 {
                assert(first_all[i] == first_rest[i - 1]);
                assert(second_all[i] == second_rest[i - 1]);
            }
        }
        assert forall|i: int| 0 <= i < first_all.len() implies (match #[trigger] first_all[i] {
            ActionModel::Acknowledge { tag: named } => named == first.tag,
            ActionModel::Release { tag: named } => named == first.tag,
            _ => true,
        }) by {
            if i > 0 {
                assert(first_all[i] == first_rest[i - 1]);
            }
        }
        assert forall|i: int| 0 <= i < second_all.len() implies (match #[trigger] second_all[i] {
            ActionModel::Acknowledge { tag: named } => named == second.tag,
            ActionModel::Release { tag: named } => named == second.tag,
            _ => true,
        }) by {
            if i > 0 {
                assert(second_all[i] == second_rest[i - 1]);
            }
        }
    }
}

/// A delivery that the broker sends again comes under a new tag. Two
/// workers with the same settings that take the same body under two tags
/// and are told the same of the pattern, the files and the writes answer
/// with the same actions, and so with the same payload; only the tag that
/// they acknowledge or release differs, and each names the tag that it was
/// given.
pub proof fn redelivery_under_a_new_tag(
    first: WorkerModel,
    second: WorkerModel,
    body: Seq<u8>,
    first_tag: u64,
    second_tag: u64,
    reports: Seq<InputModel>,
)
    requires
        takes_delivery(first.stage),
        takes_delivery(second.stage),
        first.config == second.config,
        first.policy == second.policy,
        no_delivery(reports),
    ensures
        ({
            let first_actions = run(
                first,
                seq![InputModel::Delivered { tag: first_tag, body }] + reports,
            ).1;
            let second_actions = run(
                second,
                seq![InputModel::Delivered { tag: second_tag, body }] + reports,
            ).1;
            &&& same_but_for_tags(first_actions, second_actions)
            &&& all_name(first_actions, first_tag)
            &&& all_name(second_actions, second_tag)
        }),
{
    let first_inputs = seq![InputModel::Delivered { tag: first_tag, body }] + reports;
    let second_inputs = seq![InputModel::Delivered { tag: second_tag, body }] + reports;
    assert(first_inputs.skip(1) =~= reports);
    assert(second_inputs.skip(1) =~= reports);
    let (first_mid, first_step) = first.next(first_inputs[0]);
    let (second_mid, second_step) = second.next(second_inputs[0]);
    assert(same_but_for_tag(first_mid, second_mid));
    tag_decides_nothing(first_mid, second_mid, reports);
    let first_rest = run(first_mid, reports).1;
    let second_rest = run(second_mid, reports).1;
    let first_all = seq![first_step.action] + first_rest;
    let second_all = seq![second_step.action] + second_rest;
    assert(run(first, first_inputs).1 == first_all);
    assert(run(second, second_inputs).1 == second_all);
    assert forall|i: int| 0 <= i < first_all.len() implies untagged(#[trigger] first_all[i])
        == untagged(second_all[i]) by {
        if i > 0 {
            assert(first_all[i] == first_rest[i - 1]);
            assert(second_all[i] == second_rest[i - 1]);
        }
    }
    assert forall|i: int| 0 <= i < first_all.len() implies (match #[trigger] first_all[i] {
        ActionModel::Acknowledge { tag: named } => named == first_tag,
        ActionModel::Release { tag: named } => named == first_tag,
        _ => true,
    }) by {
        if i > 0 {
            assert(first_all[i] == first_rest[i - 1]);
        }
    }
    assert forall|i: int| 0 <= i < second_all.len() implies (match #[trigger] second_all[i] {
        ActionModel::Acknowledge { tag: named } => named == second_tag,
        ActionModel::Release { tag: named } => named == second_tag,
        _ => true,
    }) by {
        if i > 0 {
            assert(second_all[i] == second_rest[i - 1]);
        }
    }
}

/// Over any course of events, the settings stay as they are.
pub proof fn run_keeps_settings(w: WorkerModel, inputs: Seq<InputModel>)
    ensures
        run(w, inputs).0.config == w.config,
        run(w, inputs).0.policy == w.policy,
    decreases inputs.len(),
{
    if inputs.len() > 0 {
        run_keeps_settings(w.next(inputs[0]).0, inputs.skip(1));
    }
}

/// Whether every event reports on a file: its lines, or that it could not be
/// read.
pub open spec fn all_report_files(inputs: Seq<InputModel>) -> bool {
    forall|i: int|
        0 <= i < inputs.len() ==> (#[trigger] inputs[i] is FileRead || inputs[i] is FileUnreadable)
}

/// The events of the files that were read, file after file; a file that
/// could not be read gives none.
pub open spec fn gathered(files: Seq<InputModel>, mode: LogFormat) -> Seq<EventModel>
    decreases files.len(),
{
    if files.len() == 0 {
        Seq::empty()
    } else {
        let first = match files[0] {
            InputModel::FileRead { lines } => accepted(file_outcomes(lines, mode)),
            _ => Seq::empty(),
        };
        first + gathered(files.skip(1), mode)
    }
}

/// Once every matched file was reported on, the batch holds the events of
/// all files that could be read, in the order of the files: a file that
/// could not be read, or a line that was skipped, costs none of the others.
/// The worker then writes the lines of exactly those points, or, where there
/// are none, acknowledges the delivery.
pub proof fn reading_gathers_every_file(w: WorkerModel, files: Seq<InputModel>)
    requires
        w.wf(),
        w.stage is Reading,
        all_report_files(files),
        files.len() == w.paths.len() - w.cursor,
    ensures
        ({
            let (after, actions) = run(w, files);
            let points = w.points + gathered(files, w.config.log_format);
            &&& after.points == points
            &&& actions.len() == files.len()
            &&& forall|i: int|
                0 <= i < files.len() - 1 ==> #[trigger] actions[i] == ActionModel::ReadFile {
                    path: w.paths[w.cursor + 1 + i],
                }
            &&& actions.last() == if points.len() == 0 {
                ActionModel::Acknowledge { tag: w.tag }
            } else {
                ActionModel::Write { database: w.config.database, payload: payload_of(points) }
            }
        }),
    decreases files.len(),
{
    let mode = w.config.log_format;
    let (mid, step) = w.next(files[0]);
    let rest = files.skip(1);
    let first = match files[0] {
        InputModel::FileRead { lines } => accepted(file_outcomes(lines, mode)),
        _ => Seq::empty(),
    };
    assert(files[0] is FileRead || files[0] is FileUnreadable);
    assert(mid.points =~= w.points + first);
    let (after, later) = run(mid, rest);
    let actions = seq![step.action] + later;
    if rest.len() == 0 {
        assert(gathered(rest, mode) =~= Seq::<EventModel>::empty());
        assert(w.points + gathered(files, mode) =~= w.points + first);
        assert(actions =~= seq![step.action]);
    } else {
        next_keeps_well_formed(w, files[0]);
        assert forall|i: int| 0 <= i < rest.len() implies (#[trigger] rest[i] is FileRead
            || rest[i] is FileUnreadable) by {
            assert(rest[i] == files[i + 1]);
        }
        reading_gathers_every_file(mid, rest);
        assert(mid.points + gathered(rest, mode) =~= w.points + gathered(files, mode));
        assert(actions.last() == later.last());
        assert forall|i: int| 0 <= i < files.len() - 1 implies #[trigger] actions[i]
            == (ActionModel::ReadFile { path: w.paths[w.cursor + 1 + i] }) by {
            if i > 0 {
                assert(actions[i] == later[i - 1]);
            }
        }
    }
}

/// A metrics store that keeps one value for each point: a point is known by
/// its tags and its time, and writing it again overwrites it.
pub type Store = Map<EventModel, int>;

/// The store after the points were written to it, each with the value 1.
pub open spec fn written(store: Store, points: Seq<EventModel>) -> Store
    decreases points.len(),
{
    if points.len() == 0 {
        store
    } else {
        written(store, points.drop_last()).insert(points.last(), 1)
    }
}

/// What a store holds after a write: the points written, with the value 1,
/// and what it held before of all others.
pub proof fn written_holds(store: Store, points: Seq<EventModel>)
    ensures
        forall|p: EventModel| #[trigger]
            written(store, points).contains_key(p) <==> store.contains_key(p) || points.contains(
                p,
            ),
        forall|p: EventModel| points.contains(p) ==> #[trigger] written(store, points)[p] == 1,
        forall|p: EventModel|
            !points.contains(p) && store.contains_key(p) ==> #[trigger] written(store, points)[p]
                == store[p],
    decreases points.len(),
{
    if points.len() > 0 {
        let rest = points.drop_last();
        let last = points.last();
        written_holds(store, rest);
        assert(written(store, points) == written(store, rest).insert(last, 1));
        assert forall|p: EventModel| points.contains(p) <==> rest.contains(p) || p == last by {
            if points.contains(p) {
                let i = choose|i: int| 0 <= i < points.len() && points[i] == p;
                if i < rest.len() {
                    assert(rest[i] == p);
                }
            }
            if rest.contains(p) {
                let i = choose|i: int| 0 <= i < rest.len() && rest[i] == p;
                assert(points[i] == p);
            }
            if p == last {
                assert(points[points.len() - 1] == p);
            }
        }
        assert forall|p: EventModel| #[trigger]
            written(store, points).contains_key(p) <==> store.contains_key(p) || points.contains(
                p,
            ) by {
            assert(written(store, rest).contains_key(p) <==> store.contains_key(p)
                || rest.contains(p));
        }
        assert forall|p: EventModel| points.contains(p) implies #[trigger] written(
            store,
            points,
        )[p] == 1 by {
            if p != last {
                assert(rest.contains(p));
                assert(written(store, rest)[p] == 1);
            }
        }
        assert forall|p: EventModel|
            !points.contains(p) && store.contains_key(p) implies #[trigger] written(
            store,
            points,
        )[p] == store[p] by {
            assert(!rest.contains(p));
            assert(written(store, rest)[p] == store[p]);
        }
    }
}

/// Writing the same points twice leaves the store as writing them once
/// does: a delivery that is handled again changes nothing in the store.
pub proof fn second_write_changes_nothing(store: Store, points: Seq<EventModel>)
    ensures
        written(written(store, points), points) == written(store, points),
{
    let once = written(store, points);
    written_holds(store, points);
    written_holds(once, points);
    assert(written(once, points) =~= once);
}

} // verus!
