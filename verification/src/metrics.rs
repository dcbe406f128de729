//! Points in the line format of the metrics store, and the batch that one
//! delivery collects.

use crate::decimal::{append_decimal, decimal};
use crate::event::{EventModel, ParsedEvent};
use vstd::prelude::*;
use vstd::string::*;

verus! {

/// The line that stands for one event: the measurement `operation`, the tags
/// `name` and `username`, the field `value=1i`, and the time in nanoseconds.
pub open spec fn point_line(event: EventModel) -> Seq<char> {
    "operation,name="@ + event.operation + ",username="@ + event.username + " value=1i "@
        + decimal(event.nanos) + "\n"@
}

/// The lines of the events, one after the other.
pub open spec fn payload_of(events: Seq<EventModel>) -> Seq<char>
    decreases events.len(),
{
    if events.len() == 0 {
        Seq::empty()
    } else {
        payload_of(events.drop_last()) + point_line(events.last())
    }
}

/// The views of the events, in order.
pub open spec fn event_views(events: Seq<ParsedEvent>) -> Seq<EventModel> {
    events.map_values(|e: ParsedEvent| e@)
}

/// Appends the line of `event` to `out`.
pub fn append_point(out: &mut String, event: &ParsedEvent)
    ensures
        final(out)@ == old(out)@ + point_line(event@),
{
    out.append("operation,name=");
    out.append(event.operation.as_str());
    out.append(",username=");
    out.append(event.username.as_str());
    out.append(" value=1i ");
    append_decimal(out, event.event_time_nanos);
    out.append("\n");
    assert(out@ =~= old(out)@ + point_line(event@));
}

/// The line of one event.
pub fn encode_point(event: &ParsedEvent) -> (line: String)
    ensures
        line@ == point_line(event@),
{
    let mut line = String::new();
    append_point(&mut line, event);
    assert(line@ =~= point_line(event@));
    line
}

/// The points of one delivery, in the order in which their lines were read.
#[derive(Debug, PartialEq, Eq)]
pub struct Batch {
    points: Vec<ParsedEvent>,
}

impl View for Batch {
    type V = Seq<EventModel>;

    closed spec fn view(&self) -> Seq<EventModel> {
        event_views(self.points@)
    }
}

impl Batch {
    /// The batch without points.
    pub fn new() -> (batch: Batch)
        ensures
            batch@ == Seq::<EventModel>::empty(),
    {
        let batch = Batch { points: Vec::new() };
        assert(batch@ =~= Seq::<EventModel>::empty());
        batch
    }

    /// Adds the point of `event` behind those that are there.
    pub fn add(&mut self, event: ParsedEvent)
        ensures
            final(self)@ == old(self)@.push(event@),
    {
        self.points.push(event);
        assert(self@ =~= old(self)@.push(event@));
    }

    /// Adds the points of `events`, in their order, behind those that are
    /// there.
    pub fn extend(&mut self, events: Vec<ParsedEvent>)
        ensures
            final(self)@ == old(self)@ + event_views(events@),
    {
        let mut events = events;
        let ghost added = event_views(events@);
        self.points.append(&mut events);
        assert(self@ =~= old(self)@ + added);
    }

    /// The batch with the point of `event` added.
    pub fn append(self, event: ParsedEvent) -> (batch: Batch)
        ensures
            batch@ == self@.push(event@),
    {
        let mut batch = self;
        batch.add(event);
        batch
    }

    /// How many points the batch holds.
    pub fn len(&self) -> (n: usize)
        ensures
            n == self@.len(),
    {
        self.points.len()
    }

    /// Whether the batch holds no point.
    pub fn is_empty(&self) -> (empty: bool)
        ensures
            empty == (self@.len() == 0),
    {
        self.points.len() == 0
    }

    /// The payload for the metrics store: the line of every point, in order.
    /// It is empty exactly for the empty batch.
    pub fn finalize(&self) -> (payload: String)
        ensures
            payload@ == payload_of(self@),
    {
        let mut payload = String::new();
        let n = self.points.len();
        let mut i: usize = 0;
        assert(self@.take(0) =~= Seq::<EventModel>::empty());
        while i < n
            invariant
                n == self.points@.len(),
                self@ == event_views(self.points@),
                i <= n,
                payload@ == payload_of(self@.take(i as int)),
            decreases n - i,
        {
            append_point(&mut payload, &self.points[i]);
            proof {
                assert(self@.take(i + 1).drop_last() =~= self@.take(i as int));
                assert(self@.take(i + 1).last() == self.points@[i as int]@);
            }
            i += 1;
        }
        assert(self@.take(n as int) =~= self@);
        payload
    }
}

/// The payload of a batch is empty exactly when the batch is.
pub proof fn payload_empty_iff_no_points(events: Seq<EventModel>)
    ensures
        payload_of(events).len() == 0 <==> events.len() == 0,
{
    if events.len() > 0 {
        reveal_strlit("\n");
        assert(point_line(events.last()).len() > 0);
    }
}

/// The payload of two runs of events is the payload of the first followed by
/// that of the second.
pub proof fn payload_of_concat(first: Seq<EventModel>, second: Seq<EventModel>)
    ensures
        payload_of(first + second) == payload_of(first) + payload_of(second),
    decreases second.len(),
{
    if second.len() == 0 {
        assert(first + second =~= first);
        assert(payload_of(first) + payload_of(second) =~= payload_of(first));
    } else {
        payload_of_concat(first, second.drop_last());
        assert((first + second).drop_last() =~= first + second.drop_last());
        assert((first + second).last() == second.last());
        assert(payload_of(first + second) =~= payload_of(first) + payload_of(second));
    }
}

} // verus!
