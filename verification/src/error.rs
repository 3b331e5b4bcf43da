//! Faults reported by the dimmer engine.
//!
//! Every fallible operation of the crate reports an [`RbdDimmerError`]: a
//! fault kind plus an optional free-form message. The kind is what callers
//! dispatch on; the message only carries extra detail for a human reader.

use vstd::prelude::*;
use vstd::string::StringExecFns;

verus! {

/// The kind of fault an operation ran into.
#[derive(Debug, Clone, PartialEq, Eq, Structural)]
pub enum RbdDimmerErrorKind {
    /// A dimmer tried to assert its trigger pin high and the write failed.
    SetHigh,
    /// A dimmer tried to release its trigger pin low and the write failed.
    SetLow,
    /// The power-update mailbox lost its senders.
    ChannelCommunicationDisconnected,
    /// Unspecified error.
    Other,
    /// Cancelling the periodic timer failed.
    TimerCancel,
    /// The periodic timer is already scheduled.
    TimerScheduled,
    /// Arming the periodic timer failed.
    TimerEvery,
    /// No dimmer with the requested id exists.
    DimmerNotFound,
    /// The device manager was used before it was initialized.
    DimmerManagerNotInit,
}

/// A fault: its kind, and a message with extra detail (possibly empty).
#[derive(Debug, Clone)]
pub struct RbdDimmerError {
    pub message: String,
    pub kind: RbdDimmerErrorKind,
}

impl RbdDimmerError {
    /// An error of the given kind carrying the given message.
    pub fn new(kind: RbdDimmerErrorKind, message: String) -> (e: Self)
        ensures
            e.kind == kind,
            e.message == message,
    {
        Self { message, kind }
    }

    /// An error of the given kind with an empty message.
    pub fn from(kind: RbdDimmerErrorKind) -> (e: Self)
        ensures
            e.kind == kind,
            e.message@ == Seq::<char>::empty(),
    {
        Self { message: String::new(), kind }
    }

    /// An error of kind [`RbdDimmerErrorKind::Other`] carrying the given message.
    pub fn other(message: String) -> (e: Self)
        ensures
            e.kind == RbdDimmerErrorKind::Other,
            e.message == message,
    {
        Self { message, kind: RbdDimmerErrorKind::Other }
    }

    /// A human-readable description of the error: a fixed preamble followed
    /// by the message.
    pub fn describe(&self) -> (s: String)
        ensures
            s@ == "Error when use RBDDimmer interface. Reason: "@ + self.message@,
    {
        let mut s = "Error when use RBDDimmer interface. Reason: ".to_owned();
        s.append(self.message.as_str());
        s
    }
}

} // verus!
