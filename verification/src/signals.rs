//! Trusted boundary to the reload-signal channels.
//!
//! Reload intents arrive as boolean pulses over single-producer channels.
//! Whether a pulse is pending depends on the other thread, so nothing is
//! promised of the outcome beyond its shape; a disconnected sender is a
//! state of its own, reported and treated as "no further reloads".
use vstd::prelude::*;

verus! {

#[verifier::external_type_specification]
#[verifier::external_body]
#[verifier::reject_recursive_types(T)]
pub struct ExReceiver<T>(std::sync::mpsc::Receiver<T>);

/// What one non-blocking poll of a pulse channel found.
#[derive(PartialEq, Eq, Structural, Clone, Copy, Debug)]
pub enum PulseSignal {
    /// A pulse was pending.
    Pulse,
    /// Nothing was pending.
    Empty,
    /// The sending side is gone; no pulse will ever arrive again.
    Disconnected,
}

/// Relies on `std::sync::mpsc::Receiver::try_recv`: returns a pending value
/// without blocking, or says that none is pending, or that the sender
/// disconnected.
#[verifier::external_body]
pub fn poll_pulse(rx: &std::sync::mpsc::Receiver<bool>) -> PulseSignal {
    match rx.try_recv() {
        Ok(_) => PulseSignal::Pulse,
        Err(std::sync::mpsc::TryRecvError::Empty) => PulseSignal::Empty,
        Err(std::sync::mpsc::TryRecvError::Disconnected) => PulseSignal::Disconnected,
    }
}

/// The reload decision on one poll's outcome: only a pending pulse asks for
/// a reload; an empty channel and a gone sender both mean none.
pub fn pulse_pending(sig: PulseSignal) -> (r: bool)
    ensures
        r == (sig == PulseSignal::Pulse),
{
    match sig {
        PulseSignal::Pulse => true,
        PulseSignal::Empty => false,
        PulseSignal::Disconnected => false,
    }
}

} // verus!
