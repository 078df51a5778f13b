//! A focus-timer core: a pausable stopwatch, a countdown with a saturating
//! remainder, a mode state machine driving work/endurance/rest cycles, and a
//! fixed-point rest-duration formula.
//!
//! All timing is expressed over caller-supplied timestamps, in milliseconds
//! from an arbitrary fixed origin of a monotonic clock; the surrounding
//! application reads the clock and performs rendering, audio and file I/O.

pub mod rest;
pub mod settings;
pub mod timer;
