//! Keyboard chords: ordered collections of key presses, each with its own
//! optional pre-delay and hold time, turned into a time-ordered sequence of
//! dispatch batches and played back one batch at a time.
//!
//! A [`Chord`] is built from [`Press`] values. Its timeline is the list of
//! [`timeline::Batch`]es in ascending time order; a [`playback::Playback`]
//! walks that list, telling its driver when to wait and what to send.
//!
//! All presses of a chord run on one clock. A key held for three seconds
//! and another released after half a second, both pressed at the start, go
//! down in one batch and come up in two later ones.

pub mod chord;
pub mod codes;
pub mod key;
pub mod laws;
pub mod playback;
pub mod time;
pub mod timeline;

pub use chord::Chord;
pub use codes::VirtualKey;
pub use key::Code;
pub use key::Press;
