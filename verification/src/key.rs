//! A key press: a code, read as a unicode unit or as a virtual key, with an
//! optional delay before the key goes down and an optional time for which it
//! is held.

use crate::codes::VirtualKey;
use crate::time::nanos_of_or_zero;
use crate::time::nanos_or_zero;
use std::time::Duration;
use vstd::prelude::*;
use vstd::std_specs::convert::FromSpecImpl;

verus! {

/// A 16-bit key code together with how it is to be read.
#[derive(Debug, Clone, Copy, PartialEq, Eq, Structural)]
pub enum Code {
    VirtualKey(u16),
    UnicodeKey(u16),
}

impl Code {
    /// The number that the code carries, whichever way it is read.
    pub open spec fn number(self) -> u16 {
        match self {
            Code::VirtualKey(k) => k,
            Code::UnicodeKey(k) => k,
        }
    }
}

/// One key press. Both times are measured on the chord's own clock, which
/// starts at zero when playback starts: the key goes down `delay` after the
/// start, and comes up `duration` after it went down.
#[derive(Debug, Clone, Copy, PartialEq)]
pub struct Press {
    /// The virtual or unicode key.
    pub code: Code,
    /// The time to wait before the key goes down; `None` is no wait.
    pub delay: Option<Duration>,
    /// The time to hold the key down; `None` is down and up in one instant.
    pub duration: Option<Duration>,
}

impl Press {
    /// The press of a unicode key with neither delay nor hold time.
    pub open spec fn unicode(code: u16) -> Press {
        Press { code: Code::UnicodeKey(code), delay: None, duration: None }
    }

    /// The press of a virtual key with neither delay nor hold time.
    pub open spec fn virtual_key(code: u16) -> Press {
        Press { code: Code::VirtualKey(code), delay: None, duration: None }
    }

    /// The instant at which the key goes down, in nanoseconds from the start.
    pub open spec fn down_at(self) -> nat {
        nanos_or_zero(self.delay)
    }

    /// The instant at which the key comes up, in nanoseconds from the start.
    pub open spec fn up_at(self) -> nat {
        self.down_at() + nanos_or_zero(self.duration)
    }

    /// Creates a press of a unicode key, with no delay and no hold time.
    pub fn new(code: u16) -> (r: Self)
        ensures
            r == Press::unicode(code),
    {
        Press { code: Code::UnicodeKey(code), delay: None, duration: None }
    }

    /// Reads the code as a unicode key; the number and the times stay.
    pub fn as_unicode(self) -> (r: Self)
        ensures
            r.code == Code::UnicodeKey(self.code.number()),
            r.delay == self.delay,
            r.duration == self.duration,
    {
        let mut press = self;
        match press.code {
            Code::UnicodeKey(_) => {},
            Code::VirtualKey(k) => {
                press.code = Code::UnicodeKey(k);
            },
        }
        press
    }

    /// Reads the code as a virtual key; the number and the times stay.
    pub fn as_virtual(self) -> (r: Self)
        ensures
            r.code == Code::VirtualKey(self.code.number()),
            r.delay == self.delay,
            r.duration == self.duration,
    {
        let mut press = self;
        match press.code {
            Code::UnicodeKey(k) => {
                press.code = Code::VirtualKey(k);
            },
            Code::VirtualKey(_) => {},
        }
        press
    }

    /// Sets the time to wait before the key goes down.
    pub fn with_delay(self, delay: Duration) -> (r: Self)
        ensures
            r == (Press { delay: Some(delay), ..self }),
    {
        let mut press = self;
        press.delay = Some(delay);
        press
    }

    /// Sets the time for which the key is held down.
    pub fn with_duration(self, duration: Duration) -> (r: Self)
        ensures
            r == (Press { duration: Some(duration), ..self }),
    {
        let mut press = self;
        press.duration = Some(duration);
        press
    }

    /// Sets the delay where none is set, and keeps the one that is.
    pub fn or_delay(self, delay: Duration) -> (r: Self)
        ensures
            r.code == self.code,
            r.duration == self.duration,
            r.delay == (if self.delay is Some { self.delay } else { Some(delay) }),
    {
        match self.delay {
            Some(_) => self,
            None => self.with_delay(delay),
        }
    }

    /// Computes the instant at which the key goes down.
    pub fn down_nanos(&self) -> (t: u128)
        ensures
            t == self.down_at(),
    {
        nanos_of_or_zero(&self.delay)
    }

    /// Computes the instant at which the key comes up.
    pub fn up_nanos(&self) -> (t: u128)
        ensures
            t == self.up_at(),
    {
        let down: u128 = nanos_of_or_zero(&self.delay);
        let held: u128 = nanos_of_or_zero(&self.duration);
        down + held
    }
}

impl From<u16> for Press {
    /// The press of the unicode key with this code.
    fn from(code: u16) -> (r: Self) {
        Press::new(code)
    }
}

impl FromSpecImpl<u16> for Press {
    open spec fn obeys_from_spec() -> bool {
        true
    }

    open spec fn from_spec(code: u16) -> Self {
        Press::unicode(code)
    }
}

impl From<VirtualKey> for Press {
    /// The press of the named virtual key.
    fn from(key: VirtualKey) -> (r: Self) {
        Press::new(key.code()).as_virtual()
    }
}

impl FromSpecImpl<VirtualKey> for Press {
    open spec fn obeys_from_spec() -> bool {
        true
    }

    open spec fn from_spec(key: VirtualKey) -> Self {
        Press::virtual_key(key.spec_code())
    }
}

} // verus!
