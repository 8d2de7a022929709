//! Capture of keyboard and pointer events, stamped with their capture time and
//! handed to one fan-out channel.
//!
//! The hook subsystem calls one producer per event class; each turns what it
//! is given into an [`InputEvent`] and forwards it, stamped, through a
//! [`fanout::Forwarder`]. The capture task's decisions (when the hooks are all
//! held, what a tick or a cancellation does) are [`capture::CaptureSession`].

pub mod capture;
pub mod event;
pub mod fanout;
pub mod timestamp;

pub use capture::{CaptureSession, Hook, Phase, Step, Wake};
pub use event::{InputEvent, MouseButton, PotentialInputEvent};
pub use fanout::{stamped, Captured, Forwarded, Forwarder};
pub use timestamp::Timestamp;

use vstd::prelude::*;

verus! {

/// Command-line arguments of the capture program: it takes none.
#[derive(Debug, Clone, Copy, PartialEq, Eq, Structural)]
pub struct Args {}

} // verus!
