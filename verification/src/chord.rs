//! A chord: key presses in the order in which they were added.

use crate::key::Press;
use crate::time::duration_of_millis;
use crate::time::nanos;
use crate::timeline::expand;
use crate::timeline::expansion;
use crate::timeline::is_schedule;
use crate::timeline::schedule;
use crate::timeline::Batch;
use rand::rngs::ThreadRng;
use rand::Rng;
use std::ops::Range;
use vstd::prelude::*;

verus! {

/// The generator that `rand` keeps for each thread.
#[verifier::external_type_specification]
#[verifier::external_body]
pub struct ExThreadRng(ThreadRng);

/// `rand::rng`: a handle to the generator of the current thread. Nothing is
/// claimed of it.
pub assume_specification[ rand::rng ]() -> (rng: ThreadRng);

/// `Rng::random_range` on a half-open range of `u64`: for `low < high` it
/// returns some number of that range. Which one is not said. On an empty
/// range it would panic, so that is not admitted.
#[verifier::external_body]
fn draw(rng: &mut ThreadRng, low: u64, high: u64) -> (n: u64)
    requires
        low < high,
    ensures
        low <= n < high,
{
    rng.random_range(low..high)
}

/// The UTF-16 code units of one character: the character's number where it
/// is below 0x10000, else the high and the low surrogate of it.
pub open spec fn utf16_of_char(c: char) -> Seq<u16> {
    let n = c as u32;
    if n < 0x10000 {
        seq![n as u16]
    } else {
        seq![(0xD800 + (n - 0x10000) / 0x400) as u16, (0xDC00 + (n - 0x10000) % 0x400) as u16]
    }
}

/// The UTF-16 code units of a text, character after character.
pub open spec fn utf16(text: Seq<char>) -> Seq<u16>
    decreases text.len(),
{
    if text.len() == 0 {
        Seq::empty()
    } else {
        utf16(text.drop_last()) + utf16_of_char(text.last())
    }
}

/// `str::encode_utf16`, collected: the text's UTF-16 code units in reading
/// order.
#[verifier::external_body]
fn utf16_units(text: &str) -> (units: Vec<u16>)
    ensures
        units@ == utf16(text@),
{
    text.encode_utf16().collect()
}

/// The range of delays was empty or inverted.
#[derive(Debug, Clone, Copy, PartialEq, Eq, Structural)]
pub struct EmptyRange {
    pub start: u64,
    pub end: u64,
}

/// A group of key presses that are played back on one clock.
#[derive(Debug)]
pub struct Chord {
    pub keys: Vec<Press>,
}

impl Default for Chord {
    fn default() -> (r: Self)
        ensures
            r.keys@ == Seq::<Press>::empty(),
    {
        Chord::new()
    }
}

/// Whether `d` is a whole number of milliseconds that lies in the half-open
/// range from `low` to `high`.
pub open spec fn is_millis_within(d: std::time::Duration, low: u64, high: u64) -> bool {
    exists|ms: u64| low <= ms < high && nanos(d) == #[trigger] (ms * 1_000_000)
}

/// What a press may become when the typewriter delays are dealt out: one
/// that has a delay stays as it is, one without gets a delay from the range
/// and keeps the rest.
pub open spec fn is_typed(before: Press, after: Press, low: u64, high: u64) -> bool {
    &&& after.code == before.code
    &&& after.duration == before.duration
    &&& before.delay is Some ==> after.delay == before.delay
    &&& before.delay is None ==> after.delay is Some && is_millis_within(
        after.delay->0,
        low,
        high,
    )
}

impl Chord {
    /// Creates an empty chord.
    pub fn new() -> (r: Self)
        ensures
            r.keys@ == Seq::<Press>::empty(),
    {
        Chord { keys: Vec::new() }
    }

    /// Appends a press to the end of the chord.
    pub fn push(&mut self, press: Press)
        ensures
            final(self).keys@ == old(self).keys@.push(press),
    {
        self.keys.push(press)
    }

    /// Appends `count` copies of a press to the end of the chord.
    pub fn push_n(&mut self, press: Press, count: usize)
        ensures
            final(self).keys@ == old(self).keys@ + Seq::new(count as nat, |k: int| press),
    {
        let mut n: usize = 0;
        while n < count
            invariant
                n <= count,
                self.keys@ == old(self).keys@ + Seq::new(n as nat, |k: int| press),
            decreases count - n,
        {
            self.push(press);
            n += 1;
            assert(self.keys@ =~= old(self).keys@ + Seq::new(n as nat, |k: int| press));
        }
    }

    /// Appends one unicode press, without delay or hold time, for each
    /// UTF-16 code unit of the text, in reading order.
    pub fn push_str(&mut self, keys: &str)
        ensures
            final(self).keys@ == old(self).keys@ + utf16(keys@).map_values(
                |unit: u16| Press::unicode(unit),
            ),
    {
        let units = utf16_units(keys);
        let mut n: usize = 0;
        while n < units.len()
            invariant
                n <= units.len(),
                self.keys@ == old(self).keys@ + units@.take(n as int).map_values(
                    |unit: u16| Press::unicode(unit),
                ),
            decreases units.len() - n,
        {
            self.keys.push(Press::from(units[n]));
            n += 1;
            assert(self.keys@ =~= old(self).keys@ + units@.take(n as int).map_values(
                |unit: u16| Press::unicode(unit),
            ));
        }
        assert(units@.take(n as int) =~= units@);
    }

    /// Gives every press that has no delay one drawn at random from the
    /// range, in milliseconds, each drawn by itself. A press that has a
    /// delay keeps it. An empty range is refused, and nothing is changed.
    pub fn typewriter(&mut self, range: Range<u64>) -> (r: Result<(), EmptyRange>)
        ensures
            r is Ok <==> range.start < range.end,
            r is Err ==> r == Err::<(), EmptyRange>(
                EmptyRange { start: range.start, end: range.end },
            ) && final(self).keys@ == old(self).keys@,
            r is Ok ==> final(self).keys@.len() == old(self).keys@.len(),
            r is Ok ==> forall|i: int|
                0 <= i < old(self).keys@.len() ==> is_typed(
                    old(self).keys@[i],
                    #[trigger] final(self).keys@[i],
                    range.start,
                    range.end,
                ),
    {
        if range.start >= range.end {
            return Err(EmptyRange { start: range.start, end: range.end });
        }
        let mut rng = rand::rng();
        let mut i: usize = 0;
        while i < self.keys.len()
            invariant
                range.start < range.end,
                i <= self.keys.len(),
                self.keys@.len() == old(self).keys@.len(),
                forall|k: int|
                    0 <= k < i ==> is_typed(
                        old(self).keys@[k],
                        #[trigger] self.keys@[k],
                        range.start,
                        range.end,
                    ),
                forall|k: int| i <= k < self.keys@.len() ==> self.keys@[k] == old(self).keys@[k],
            decreases self.keys.len() - i,
        {
            let press = self.keys[i];
            if press.delay.is_none() {
                let ms: u64 = draw(&mut rng, range.start, range.end);
                let delayed = press.or_delay(duration_of_millis(ms));
                self.keys.set(i, delayed);
            }
            i += 1;
        }
        Ok(())
    }

    /// Builds the chord's timeline: the events of all presses, grouped by
    /// instant, in ascending order of time.
    pub fn timeline(&self) -> (batches: Vec<Batch>)
        ensures
            is_schedule(expansion(self.keys@), batches@),
    {
        let events = expand(&self.keys);
        schedule(&events)
    }
}

} // verus!
