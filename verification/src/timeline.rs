//! From presses to a timeline: every press gives a key-down and a key-up
//! event, each at its own instant; events of one instant form a batch; the
//! batches stand in ascending order of time.

use crate::key::Code;
use crate::key::Press;
use vstd::prelude::*;

verus! {

/// What happens to the key.
#[derive(Debug, Clone, Copy, PartialEq, Eq, Structural)]
pub enum Action {
    KeyDown,
    KeyUp,
}

/// A key going down or up at an instant, in nanoseconds from the start of
/// playback.
#[derive(Debug, Clone, Copy, PartialEq, Eq, Structural)]
pub struct TimedEvent {
    pub code: Code,
    pub action: Action,
    pub at: u128,
}

/// The events of one instant, in the order in which they are to be sent.
#[derive(Debug, Clone, PartialEq, Eq)]
pub struct Batch {
    pub at: u128,
    pub events: Vec<TimedEvent>,
}

impl Press {
    /// The event of the key going down.
    pub open spec fn key_down(self) -> TimedEvent {
        TimedEvent { code: self.code, action: Action::KeyDown, at: self.down_at() as u128 }
    }

    /// The event of the key coming up.
    pub open spec fn key_up(self) -> TimedEvent {
        TimedEvent { code: self.code, action: Action::KeyUp, at: self.up_at() as u128 }
    }
}

/// The events of a sequence of presses: two for each press, its key-down
/// directly followed by its key-up, press after press in the order given.
pub open spec fn expansion(keys: Seq<Press>) -> Seq<TimedEvent> {
    Seq::new(
        2 * keys.len(),
        |k: int|
            if k % 2 == 0 {
                keys[k / 2].key_down()
            } else {
                keys[k / 2].key_up()
            },
    )
}

/// Whether an event falls on the instant `t`.
pub open spec fn at_instant(t: u128) -> spec_fn(TimedEvent) -> bool {
    |e: TimedEvent| e.at == t
}

/// The events that fall on the instant `t`, in the order they have in `events`.
pub open spec fn events_at(events: Seq<TimedEvent>, t: u128) -> Seq<TimedEvent> {
    events.filter(at_instant(t))
}

/// Whether one of the batches stands for the instant `t`.
pub open spec fn has_batch_at(batches: Seq<Batch>, t: u128) -> bool {
    exists|i: int| 0 <= i < batches.len() && (#[trigger] batches[i]).at == t
}

/// Whether `batches` is the schedule of `events`: the batches stand in
/// strictly ascending order of time, each holds exactly the events of its
/// instant in their given order, none is empty, and every event's instant
/// has its batch.
pub open spec fn is_schedule(events: Seq<TimedEvent>, batches: Seq<Batch>) -> bool {
    &&& forall|i: int, j: int|
        0 <= i < j < batches.len() ==> (#[trigger] batches[i]).at < (#[trigger] batches[j]).at
    &&& forall|i: int|
        0 <= i < batches.len() ==> (#[trigger] batches[i]).events@.len() > 0 && batches[i].events@
            == events_at(events, batches[i].at)
    &&& forall|k: int| 0 <= k < events.len() ==> has_batch_at(batches, (#[trigger] events[k]).at)
}

/// Adding an event at the end adds it to the events of its own instant and
/// to no others.
pub proof fn lemma_events_at_push(events: Seq<TimedEvent>, e: TimedEvent, t: u128)
    ensures
        events_at(events.push(e), t) == if e.at == t {
            events_at(events, t).push(e)
        } else {
            events_at(events, t)
        },
{
    reveal(Seq::filter);
    assert(events.push(e).drop_last() =~= events);
}

/// Expands the presses into their events.
pub fn expand(keys: &Vec<Press>) -> (events: Vec<TimedEvent>)
    ensures
        events@ == expansion(keys@),
{
    let mut events: Vec<TimedEvent> = Vec::new();
    let mut i: usize = 0;
    while i < keys.len()
        invariant
            i <= keys.len(),
            events@.len() == 2 * i,
            forall|k: int| 0 <= k < 2 * i ==> events@[k] == expansion(keys@)[k],
        decreases keys.len() - i,
    {
        let press = &keys[i];
        let down = TimedEvent { code: press.code, action: Action::KeyDown, at: press.down_nanos() };
        let up = TimedEvent { code: press.code, action: Action::KeyUp, at: press.up_nanos() };
        events.push(down);
        events.push(up);
        i += 1;
    }
    assert(events@ =~= expansion(keys@));
    events
}

/// Finds the first batch that is not earlier than `t`.
fn position_of(batches: &Vec<Batch>, t: u128) -> (i: usize)
    ensures
        i <= batches.len(),
        forall|j: int| 0 <= j < i ==> (#[trigger] batches@[j]).at < t,
        i < batches.len() ==> batches@[i as int].at >= t,
{
    let mut i: usize = 0;
    while i < batches.len() && batches[i].at < t
        invariant
            i <= batches.len(),
            forall|j: int| 0 <= j < i ==> (#[trigger] batches@[j]).at < t,
        decreases batches.len() - i,
    {
        i += 1;
    }
    i
}

/// Joining a new event to the batch of its instant keeps a schedule.
proof fn lemma_join_keeps_schedule(
    seen: Seq<TimedEvent>,
    e: TimedEvent,
    before: Seq<Batch>,
    after: Seq<Batch>,
    i: int,
)
    requires
        is_schedule(seen, before),
        0 <= i < before.len(),
        before[i].at == e.at,
        after.len() == before.len(),
        after[i].at == e.at,
        after[i].events@ == before[i].events@.push(e),
        forall|j: int| 0 <= j < before.len() && j != i ==> #[trigger] after[j] == before[j],
    ensures
        is_schedule(seen.push(e), after),
{
    let now = seen.push(e);
    assert forall|j: int| 0 <= j < after.len() implies (#[trigger] after[j]).at == before[j].at by {}
    assert forall|a: int, b: int| 0 <= a < b < after.len() implies (#[trigger] after[a]).at < (
    #[trigger] after[b]).at by {
        assert(before[a].at < before[b].at);
    }
    assert forall|j: int| 0 <= j < after.len() implies (#[trigger] after[j]).events@.len() > 0
        && after[j].events@ == events_at(now, after[j].at) by {
        lemma_events_at_push(seen, e, after[j].at);
        if j < i {
            assert(before[j].at < before[i].at);
        } else if j > i {
            assert(before[i].at < before[j].at);
        }
        assert(before[j].events@.len() > 0);
    }
    assert forall|n: int| 0 <= n < now.len() implies has_batch_at(after, (#[trigger] now[n]).at) by {
        if n < seen.len() {
            assert(has_batch_at(before, seen[n].at));
            let j = choose|j: int| 0 <= j < before.len() && (#[trigger] before[j]).at == seen[n].at;
            assert(after[j].at == now[n].at);
        } else {
            assert(after[i].at == now[n].at);
        }
    }
}

/// Putting a new event into a batch of its own, at the place that its
/// instant has among the others, keeps a schedule.
proof fn lemma_insert_keeps_schedule(
    seen: Seq<TimedEvent>,
    e: TimedEvent,
    before: Seq<Batch>,
    fresh: Batch,
    i: int,
)
    requires
        is_schedule(seen, before),
        0 <= i <= before.len(),
        forall|j: int| 0 <= j < i ==> (#[trigger] before[j]).at < e.at,
        i < before.len() ==> before[i].at > e.at,
        fresh.at == e.at,
        fresh.events@ == seq![e],
    ensures
        is_schedule(seen.push(e), before.insert(i, fresh)),
{
    let now = seen.push(e);
    let after = before.insert(i, fresh);
    assert forall|j: int| 0 <= j < before.len() implies (#[trigger] before[j]).at != e.at by {
        if j > i {
            assert(before[i].at < before[j].at);
        }
    }
    assert(events_at(seen, e.at).len() == 0) by {
        if events_at(seen, e.at).len() > 0 {
            let x = events_at(seen, e.at)[0];
            seen.lemma_filter_pred(at_instant(e.at), 0);
            assert(events_at(seen, e.at).contains(x));
            seen.lemma_filter_contains_rev(at_instant(e.at), x);
            let n = choose|n: int| 0 <= n < seen.len() && seen[n] == x;
            assert(has_batch_at(before, seen[n].at));
        }
    }
    assert forall|a: int, b: int| 0 <= a < b < after.len() implies (#[trigger] after[a]).at < (
    #[trigger] after[b]).at by {
        let a0 = if a < i { a } else { a - 1 };
        let b0 = if b < i { b } else { b - 1 };
        if a == i {
            assert(after[b] == before[b0]);
            assert(before[i].at <= before[b0].at) by {
                if i < b0 {
                    assert(before[i].at < before[b0].at);
                }
            }
        } else if b == i {
            assert(after[a] == before[a0]);
        } else {
            assert(after[a] == before[a0]);
            assert(after[b] == before[b0]);
            assert(before[a0].at < before[b0].at);
        }
    }
    assert forall|j: int| 0 <= j < after.len() implies (#[trigger] after[j]).events@.len() > 0
        && after[j].events@ == events_at(now, after[j].at) by {
        lemma_events_at_push(seen, e, after[j].at);
        if j == i {
            assert(after[j].events@ =~= events_at(seen, e.at).push(e));
        } else {
            let j0 = if j < i { j } else { j - 1 };
            assert(after[j] == before[j0]);
            assert(before[j0].events@.len() > 0);
        }
    }
    assert forall|n: int| 0 <= n < now.len() implies has_batch_at(after, (#[trigger] now[n]).at) by {
        if n < seen.len() {
            assert(has_batch_at(before, seen[n].at));
            let j = choose|j: int| 0 <= j < before.len() && (#[trigger] before[j]).at == seen[n].at;
            let j1 = if j < i { j } else { j + 1 };
            assert(after[j1] == before[j]);
            assert(after[j1].at == now[n].at);
        } else {
            assert(after[i].at == now[n].at);
        }
    }
}

/// Groups the events by instant and orders the groups by time.
pub fn schedule(events: &Vec<TimedEvent>) -> (batches: Vec<Batch>)
    ensures
        is_schedule(events@, batches@),
{
    let mut batches: Vec<Batch> = Vec::new();
    let mut k: usize = 0;
    while k < events.len()
        invariant
            k <= events.len(),
            is_schedule(events@.take(k as int), batches@),
        decreases events.len() - k,
    {
        let e = events[k];
        let i = position_of(&batches, e.at);
        let ghost before = batches@;
        let ghost seen = events@.take(k as int);
        assert(events@.take(k + 1) =~= seen.push(e));
        if i < batches.len() && batches[i].at == e.at {
            let mut batch = batches.remove(i);
            batch.events.push(e);
            batches.insert(i, batch);
            proof {
                lemma_join_keeps_schedule(seen, e, before, batches@, i as int);
            }
        } else {
            let mut first: Vec<TimedEvent> = Vec::new();
            first.push(e);
            let fresh = Batch { at: e.at, events: first };
            batches.insert(i, fresh);
            proof {
                lemma_insert_keeps_schedule(seen, e, before, fresh, i as int);
            }
        }
        k += 1;
    }
    assert(events@.take(k as int) =~= events@);
    batches
}

} // verus!
