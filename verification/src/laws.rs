//! What holds of every schedule, proved from its definition.

use crate::key::Press;
use crate::timeline::at_instant;
use crate::timeline::events_at;
use crate::timeline::expansion;
use crate::timeline::has_batch_at;
use crate::timeline::is_schedule;
use crate::timeline::lemma_events_at_push;
use crate::timeline::Batch;
use crate::timeline::TimedEvent;
use vstd::prelude::*;

verus! {

/// Two neighbours that fall on one instant are neighbours among the events
/// of that instant too. The result is the place of the first.
proof fn lemma_neighbours_stay(events: Seq<TimedEvent>, n: int, t: u128) -> (j: int)
    requires
        0 <= n,
        n + 1 < events.len(),
        events[n].at == t,
        events[n + 1].at == t,
    ensures
        0 <= j,
        j + 1 < events_at(events, t).len(),
        events_at(events, t)[j] == events[n],
        events_at(events, t)[j + 1] == events[n + 1],
{
    let head = events.take(n);
    let pair = seq![events[n], events[n + 1]];
    let tail = events.skip(n + 2);
    let none = Seq::<TimedEvent>::empty();
    assert(events =~= head + pair + tail);
    Seq::filter_distributes_over_add(head + pair, tail, at_instant(t));
    Seq::filter_distributes_over_add(head, pair, at_instant(t));
    assert(events_at(none, t) =~= none) by {
        reveal(Seq::filter);
    }
    lemma_events_at_push(none, events[n], t);
    lemma_events_at_push(none.push(events[n]), events[n + 1], t);
    assert(none.push(events[n]).push(events[n + 1]) =~= pair);
    assert(events_at(pair, t) =~= pair);
    events_at(head, t).len() as int
}

/// Events of one instant exist where a batch of that instant does.
proof fn lemma_batch_has_an_event(events: Seq<TimedEvent>, batches: Seq<Batch>, i: int) -> (n: int)
    requires
        is_schedule(events, batches),
        0 <= i < batches.len(),
    ensures
        0 <= n < events.len(),
        events[n].at == batches[i].at,
{
    let t = batches[i].at;
    let x = events_at(events, t)[0];
    events.lemma_filter_pred(at_instant(t), 0);
    assert(events_at(events, t).contains(x));
    events.lemma_filter_contains_rev(at_instant(t), x);
    choose|n: int| 0 <= n < events.len() && events[n] == x
}

/// In two schedules of the same events, the batch at place `i` of the one
/// has its instant at place `i` or later in the other.
proof fn lemma_place_is_not_earlier(
    events: Seq<TimedEvent>,
    a: Seq<Batch>,
    b: Seq<Batch>,
    i: int,
) -> (j: int)
    requires
        is_schedule(events, a),
        is_schedule(events, b),
        0 <= i < a.len(),
    ensures
        i <= j < b.len(),
        b[j].at == a[i].at,
    decreases i,
{
    let n = lemma_batch_has_an_event(events, a, i);
    assert(has_batch_at(b, events[n].at));
    let j = choose|j: int| 0 <= j < b.len() && (#[trigger] b[j]).at == a[i].at;
    if i > 0 {
        let before = lemma_place_is_not_earlier(events, a, b, i - 1);
        assert(a[i - 1].at < a[i].at);
        if j <= before {
            if j < before {
                assert(b[j].at < b[before].at);
            }
        }
    }
    j
}

/// The pair is atomic: a press without hold time has its key-down and its
/// key-up at one instant, and in the batch of that instant the key-up
/// follows the key-down directly, with nothing between them.
pub proof fn law_pair_is_atomic(keys: Seq<Press>, batches: Seq<Batch>, i: int)
    requires
        is_schedule(expansion(keys), batches),
        0 <= i < keys.len(),
        keys[i].duration is None,
    ensures
        keys[i].key_up().at == keys[i].key_down().at,
        exists|b: int, j: int|
            0 <= b < batches.len() && batches[b].at == keys[i].key_down().at && 0 <= j && j + 1
                < batches[b].events@.len() && #[trigger] batches[b].events@[j]
                == keys[i].key_down() && batches[b].events@[j + 1] == keys[i].key_up(),
{
    let events = expansion(keys);
    let t = keys[i].key_down().at;
    assert(events[2 * i] == keys[i].key_down());
    assert(events[2 * i + 1] == keys[i].key_up());
    let j = lemma_neighbours_stay(events, 2 * i, t);
    assert(has_batch_at(batches, events[2 * i].at));
    let b = choose|b: int| 0 <= b < batches.len() && (#[trigger] batches[b]).at == t;
    assert(batches[b].events@[j] == keys[i].key_down());
}

/// A chord of one press without hold time has one batch, at the instant at
/// which the key goes down: the key-down, then the key-up, and nothing else.
pub proof fn law_single_press(press: Press, batches: Seq<Batch>)
    requires
        is_schedule(expansion(seq![press]), batches),
        press.duration is None,
    ensures
        batches.len() == 1,
        batches[0].at == press.key_down().at,
        batches[0].events@ == seq![press.key_down(), press.key_up()],
{
    let events = expansion(seq![press]);
    let t = press.key_down().at;
    assert(events =~= seq![press.key_down(), press.key_up()]);
    assert(has_batch_at(batches, events[0].at));
    assert forall|b: int| 0 <= b < batches.len() implies (#[trigger] batches[b]).at == t by {
        let n = lemma_batch_has_an_event(events, batches, b);
    }
    if batches.len() > 1 {
        assert(batches[0].at < batches[1].at);
    }
    let none = Seq::<TimedEvent>::empty();
    assert(events_at(none, t) =~= none) by {
        reveal(Seq::filter);
    }
    lemma_events_at_push(none, events[0], t);
    lemma_events_at_push(none.push(events[0]), events[1], t);
    assert(none.push(events[0]).push(events[1]) =~= events);
}

/// Events of one instant are merged: any two events that fall on the same
/// instant stand in one batch, and no second batch has that instant.
pub proof fn law_same_instant_same_batch(
    events: Seq<TimedEvent>,
    batches: Seq<Batch>,
    m: int,
    n: int,
)
    requires
        is_schedule(events, batches),
        0 <= m < events.len(),
        0 <= n < events.len(),
        events[m].at == events[n].at,
    ensures
        exists|b: int|
            {
                &&& 0 <= b < batches.len()
                &&& (#[trigger] batches[b]).at == events[m].at
                &&& batches[b].events@.contains(events[m])
                &&& batches[b].events@.contains(events[n])
                &&& forall|c: int|
                    0 <= c < batches.len() && (#[trigger] batches[c]).at == events[m].at ==> c == b
            },
{
    let t = events[m].at;
    assert(has_batch_at(batches, events[m].at));
    let b = choose|b: int| 0 <= b < batches.len() && (#[trigger] batches[b]).at == t;
    events.lemma_filter_contains(at_instant(t), m);
    events.lemma_filter_contains(at_instant(t), n);
    assert forall|c: int| 0 <= c < batches.len() && (#[trigger] batches[c]).at == t implies c
        == b by {
        if c < b {
            assert(batches[c].at < batches[b].at);
        } else if b < c {
            assert(batches[b].at < batches[c].at);
        }
    }
}

/// Time never runs back along a schedule: a batch that stands later is
/// later in time.
pub proof fn law_batches_ascend(events: Seq<TimedEvent>, batches: Seq<Batch>, i: int, j: int)
    requires
        is_schedule(events, batches),
        0 <= i <= j < batches.len(),
    ensures
        batches[i].at <= batches[j].at,
        i < j ==> batches[i].at < batches[j].at,
{
    if i < j {
        assert(batches[i].at < batches[j].at);
    }
}

/// Events have one schedule only: two schedules of the same events have the
/// same number of batches, with the same instant and the same events at
/// each place.
pub proof fn law_schedule_is_unique(events: Seq<TimedEvent>, a: Seq<Batch>, b: Seq<Batch>)
    requires
        is_schedule(events, a),
        is_schedule(events, b),
    ensures
        a.len() == b.len(),
        forall|i: int|
            0 <= i < a.len() ==> (#[trigger] a[i]).at == b[i].at && a[i].events@ == b[i].events@,
{
    if a.len() > 0 {
        let j = lemma_place_is_not_earlier(events, a, b, a.len() - 1);
    }
    if b.len() > 0 {
        let j = lemma_place_is_not_earlier(events, b, a, b.len() - 1);
    }
    assert forall|i: int| 0 <= i < a.len() implies (#[trigger] a[i]).at == b[i].at
        && a[i].events@ == b[i].events@ by {
        let j = lemma_place_is_not_earlier(events, a, b, i);
        let k = lemma_place_is_not_earlier(events, b, a, i);
        if i < j {
            assert(b[i].at < b[j].at);
        }
        if i < k {
            assert(a[i].at < a[k].at);
        }
    }
}

} // verus!
