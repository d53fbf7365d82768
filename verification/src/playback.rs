//! Playing a timeline back. The playback decides; its driver acts. The
//! driver asks for the next step with the time that has passed since it
//! began, waits or sends as it is told, and reports how each sending went.

use crate::chord::Chord;
use crate::time::nanos;
use crate::time::nanos_of;
use crate::timeline::expansion;
use crate::timeline::is_schedule;
use crate::timeline::Batch;
use std::time::Duration;
use vstd::prelude::*;

verus! {

/// What the driver is to do next.
#[derive(Debug, Clone, Copy, PartialEq, Eq)]
pub enum Step<'a> {
    /// Nothing is due yet: wait this many nanoseconds, then ask again.
    Wait(u128),
    /// This batch is due: send it as one unit, then report the outcome.
    Send(&'a Batch),
    /// Every batch has been sent.
    Finished,
    /// A sending failed; the batches after it are not sent.
    Failed,
}

/// The state of one playback: the timeline, the lead time before its
/// instant zero, how many of its batches have been sent, and whether a
/// sending has failed.
#[derive(Debug)]
pub struct Playback {
    batches: Vec<Batch>,
    lead: u128,
    sent: usize,
    failed: bool,
}

impl Playback {
    /// The timeline that is played back.
    pub closed spec fn batches(&self) -> Seq<Batch> {
        self.batches@
    }

    /// The nanoseconds that pass before the timeline's instant zero.
    pub closed spec fn lead(&self) -> u128 {
        self.lead
    }

    /// The number of batches that have been sent.
    pub closed spec fn sent(&self) -> nat {
        self.sent as nat
    }

    /// Whether a sending has failed.
    pub closed spec fn failed(&self) -> bool {
        self.failed
    }

    /// Whether a batch is still to be sent.
    pub open spec fn pending(&self) -> bool {
        !self.failed() && self.sent() < self.batches().len()
    }

    /// The step that is due when `elapsed` nanoseconds have passed since
    /// the driver began: after a failure none; during the lead time the
    /// rest of it; then, batch after batch, the wait until the batch's
    /// instant and the batch itself.
    pub open spec fn step_at(&self, elapsed: u128) -> Step<'_> {
        if self.failed() {
            Step::Failed
        } else if elapsed < self.lead() {
            Step::Wait((self.lead() - elapsed) as u128)
        } else if self.sent() >= self.batches().len() {
            Step::Finished
        } else if elapsed - self.lead() < self.batches()[self.sent() as int].at {
            Step::Wait((self.batches()[self.sent() as int].at - (elapsed - self.lead())) as u128)
        } else {
            Step::Send(&self.batches()[self.sent() as int])
        }
    }

    /// Starts a playback of the chord without lead time: its timeline is
    /// built, nothing is sent yet.
    pub fn new(chord: &Chord) -> (p: Self)
        ensures
            is_schedule(expansion(chord.keys@), p.batches()),
            p.lead() == 0,
            p.sent() == 0,
            !p.failed(),
    {
        Playback { batches: chord.timeline(), lead: 0, sent: 0, failed: false }
    }

    /// Starts a playback of the chord that begins after a lead time. The
    /// timeline is that of the chord: every batch falls due later by the
    /// lead time, and by nothing else.
    pub fn after(chord: &Chord, lead: Duration) -> (p: Self)
        ensures
            is_schedule(expansion(chord.keys@), p.batches()),
            p.lead() == nanos(lead),
            p.sent() == 0,
            !p.failed(),
    {
        Playback { batches: chord.timeline(), lead: nanos_of(&lead), sent: 0, failed: false }
    }

    /// Whether nothing is left to send: all is sent, or a sending failed.
    pub fn is_over(&self) -> (r: bool)
        ensures
            r == !self.pending(),
    {
        self.failed || self.sent >= self.batches.len()
    }

    /// The number of batches sent so far.
    pub fn sent_count(&self) -> (n: usize)
        ensures
            n == self.sent(),
    {
        self.sent
    }

    /// Decides what is to be done when `elapsed` nanoseconds have passed
    /// since the driver began. The state does not change by asking.
    pub fn step(&self, elapsed: u128) -> (s: Step<'_>)
        ensures
            s == self.step_at(elapsed),
    {
        if self.failed {
            Step::Failed
        } else if elapsed < self.lead {
            Step::Wait(self.lead - elapsed)
        } else if self.sent >= self.batches.len() {
            Step::Finished
        } else {
            let batch = &self.batches[self.sent];
            let since: u128 = elapsed - self.lead;
            if since < batch.at {
                Step::Wait(batch.at - since)
            } else {
                Step::Send(batch)
            }
        }
    }

    /// Takes note of how the sending of the batch that was due went. After
    /// a success the next batch is due; after a failure none is. Where no
    /// batch was left to send, nothing changes.
    pub fn record(&mut self, delivered: bool)
        ensures
            final(self).batches() == old(self).batches(),
            final(self).lead() == old(self).lead(),
            !old(self).pending() ==> *final(self) == *old(self),
            old(self).pending() && delivered ==> final(self).sent() == old(self).sent() + 1
                && !final(self).failed(),
            old(self).pending() && !delivered ==> final(self).sent() == old(self).sent()
                && final(self).failed(),
    {
        if !self.failed && self.sent < self.batches.len() {
            if delivered {
                self.sent += 1;
            } else {
                self.failed = true;
            }
        }
    }
}

/// The batches are sent in the order of the timeline and so in ascending
/// order of time: while a batch is pending, the step that sends is the one
/// for the batch whose place is the number sent so far, and it falls due
/// when its instant, counted from the end of the lead time, is reached.
pub proof fn law_sends_follow_the_timeline(p: Playback, elapsed: u128)
    requires
        p.pending(),
    ensures
        p.step_at(elapsed) is Send <==> elapsed >= p.lead() + p.batches()[p.sent() as int].at,
        p.step_at(elapsed) is Send ==> p.step_at(elapsed) == Step::Send(
            &p.batches()[p.sent() as int],
        ),
        !(p.step_at(elapsed) is Send) ==> p.step_at(elapsed) is Wait,
{
}

} // verus!
