//! The single-instance detector, run once when a process starts: it finds out
//! whether another instance holds the rendezvous address and, if so, asks it
//! to come forward.
//!
//! The caller checks the address, connects and writes; `detector_step`
//! decides, from the phase and what that gave, what to do next.
use vstd::prelude::*;

verus! {

/// Where the detector stands.
#[derive(Clone, Copy, Debug, PartialEq, Eq, Structural)]
pub enum DetectorPhase {
    /// Checking whether the rendezvous address exists.
    Checking,
    /// The address exists; trying to connect to it.
    Probing,
    /// Decided: whether another instance is running.
    Done { other_instance: bool },
}

/// What the work that the last action asked for gave.
#[derive(Clone, Copy, Debug, PartialEq, Eq, Structural)]
pub enum DetectorEvent {
    /// Whether the rendezvous address exists.
    AddressChecked { present: bool },
    /// Whether the one connection attempt succeeded.
    ConnectAttempted { connected: bool },
}

/// The work the detector asks for next.
#[derive(Clone, Copy, Debug, PartialEq, Eq, Structural)]
pub enum DetectorAction {
    /// Check whether the rendezvous address exists.
    CheckAddress,
    /// Connect to the address, once.
    Connect,
    /// Write the control request on the connection.
    SendRequest,
    /// Remove the stale rendezvous entry.
    RemoveStale,
    /// Nothing more to do.
    Finish,
}

/// A phase and the work it asks for.
#[derive(Clone, Copy, Debug, PartialEq, Eq, Structural)]
pub struct DetectorStep {
    pub phase: DetectorPhase,
    pub action: DetectorAction,
}

/// Whether the action touches the address beyond the existence check.
pub open spec fn does_io(a: DetectorAction) -> bool {
    a == DetectorAction::Connect || a == DetectorAction::SendRequest || a == DetectorAction::RemoveStale
}

/// The work a phase waits on.
pub open spec fn detector_pending(p: DetectorPhase) -> DetectorAction {
    match p {
        DetectorPhase::Checking => DetectorAction::CheckAddress,
        DetectorPhase::Probing => DetectorAction::Connect,
        DetectorPhase::Done { .. } => DetectorAction::Finish,
    }
}

/// The next phase and action on an event.
pub open spec fn detector_next(p: DetectorPhase, e: DetectorEvent) -> DetectorStep {
    match (p, e) {
        (DetectorPhase::Checking, DetectorEvent::AddressChecked { present }) => if present {
            DetectorStep { phase: DetectorPhase::Probing, action: DetectorAction::Connect }
        } else {
            DetectorStep { phase: DetectorPhase::Done { other_instance: false }, action: DetectorAction::Finish }
        },
        (DetectorPhase::Probing, DetectorEvent::ConnectAttempted { connected }) => if connected {
            DetectorStep { phase: DetectorPhase::Done { other_instance: true }, action: DetectorAction::SendRequest }
        } else {
            DetectorStep { phase: DetectorPhase::Done { other_instance: false }, action: DetectorAction::RemoveStale }
        },
        _ => DetectorStep { phase: p, action: detector_pending(p) },
    }
}

/// The step the detector starts with.
pub fn detector_start() -> (r: DetectorStep)
    ensures
        r == (DetectorStep { phase: DetectorPhase::Checking, action: DetectorAction::CheckAddress }),
{
    DetectorStep { phase: DetectorPhase::Checking, action: DetectorAction::CheckAddress }
}

/// Decides what the detector does next. An event that does not answer the
/// phase's pending work changes nothing and asks for that work again.
pub fn detector_step(phase: DetectorPhase, event: DetectorEvent) -> (r: DetectorStep)
    ensures
        r == detector_next(phase, event),
        // No address: no other instance, and nothing more is touched.
        phase == DetectorPhase::Checking && event == (DetectorEvent::AddressChecked { present: false })
            ==> r.phase == (DetectorPhase::Done { other_instance: false }) && !does_io(r.action),
        // A stale address: it is removed and no other instance is reported.
        phase == DetectorPhase::Probing && event == (DetectorEvent::ConnectAttempted { connected: false })
            ==> r == (DetectorStep { phase: DetectorPhase::Done { other_instance: false }, action: DetectorAction::RemoveStale }),
        // Another instance is reported exactly when a connection was made, and
        // then the request is sent on it.
        r.phase == (DetectorPhase::Done { other_instance: true }) && !(phase is Done)
            <==> phase == DetectorPhase::Probing && event == (DetectorEvent::ConnectAttempted { connected: true }),
        r.action == DetectorAction::SendRequest ==> r.phase == (DetectorPhase::Done { other_instance: true }),
        // Once decided, the detector stays decided and does nothing more.
        phase is Done ==> r.phase == phase && r.action == DetectorAction::Finish,
{
    match (phase, event) {
        (DetectorPhase::Checking, DetectorEvent::AddressChecked { present }) => if present {
            DetectorStep { phase: DetectorPhase::Probing, action: DetectorAction::Connect }
        } else {
            DetectorStep { phase: DetectorPhase::Done { other_instance: false }, action: DetectorAction::Finish }
        },
        (DetectorPhase::Probing, DetectorEvent::ConnectAttempted { connected }) => if connected {
            DetectorStep { phase: DetectorPhase::Done { other_instance: true }, action: DetectorAction::SendRequest }
        } else {
            DetectorStep { phase: DetectorPhase::Done { other_instance: false }, action: DetectorAction::RemoveStale }
        },
        _ => {
            let action = match phase {
                DetectorPhase::Checking => DetectorAction::CheckAddress,
                DetectorPhase::Probing => DetectorAction::Connect,
                DetectorPhase::Done { .. } => DetectorAction::Finish,
            };
            DetectorStep { phase, action }
        },
    }
}

} // verus!
