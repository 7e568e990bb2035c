//! A library for running a command until it succeeds or a retry budget is
//! exhausted.
//!
//! The retry decision logic lives in [`runner`]: a small state machine over a
//! signed retry counter, together with a pure driver that replays a sequence
//! of attempt outcomes. The [`validate`] module checks that a command-line
//! argument is a decimal numeral that fits in an `i32`.

pub mod runner;
pub mod validate;
