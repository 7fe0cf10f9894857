//! The startup sequence: hand off to a running instance if there is one,
//! otherwise make sure the service is reachable before anything is launched.
use vstd::prelude::*;

verus! {

/// Where startup stands.
#[derive(Clone, Copy, Debug, PartialEq, Eq, Structural)]
pub enum StartupPhase {
    /// Running the single-instance detector.
    Detecting,
    /// Waiting for the liveness client's one report.
    AwaitingLiveness,
    /// The listener and the window are up.
    Running,
    /// The process ends, with success or not.
    Exited { success: bool },
}

/// What the work that the last action asked for gave.
#[derive(Clone, Copy, Debug, PartialEq, Eq, Structural)]
pub enum StartupEvent {
    /// What the detector decided.
    InstanceDetected { other_instance: bool },
    /// What the liveness client reported; a client that ended without a
    /// report counts as unreachable.
    LivenessReported { reachable: bool },
}

/// The work startup asks for next.
#[derive(Clone, Copy, Debug, PartialEq, Eq, Structural)]
pub enum StartupAction {
    /// Run the single-instance detector.
    DetectInstance,
    /// Start the liveness client and wait for its report.
    StartLiveness,
    /// Start the control listener, then build and run the window.
    Launch,
    /// The request went to the running instance: exit with success.
    ExitForwarded,
    /// The service is unreachable: tell the user and exit with failure.
    ExitUnreachable,
    /// Nothing more to do.
    Idle,
}

/// A phase and the work it asks for.
#[derive(Clone, Copy, Debug, PartialEq, Eq, Structural)]
pub struct StartupStep {
    pub phase: StartupPhase,
    pub action: StartupAction,
}

/// The work a phase waits on.
pub open spec fn startup_pending(p: StartupPhase) -> StartupAction {
    match p {
        StartupPhase::Detecting => StartupAction::DetectInstance,
        StartupPhase::AwaitingLiveness => StartupAction::StartLiveness,
        _ => StartupAction::Idle,
    }
}

/// The next phase and action on an event.
pub open spec fn startup_next(p: StartupPhase, e: StartupEvent) -> StartupStep {
    match (p, e) {
        (StartupPhase::Detecting, StartupEvent::InstanceDetected { other_instance }) => if other_instance {
            StartupStep { phase: StartupPhase::Exited { success: true }, action: StartupAction::ExitForwarded }
        } else {
            StartupStep { phase: StartupPhase::AwaitingLiveness, action: StartupAction::StartLiveness }
        },
        (StartupPhase::AwaitingLiveness, StartupEvent::LivenessReported { reachable }) => if reachable {
            StartupStep { phase: StartupPhase::Running, action: StartupAction::Launch }
        } else {
            StartupStep { phase: StartupPhase::Exited { success: false }, action: StartupAction::ExitUnreachable }
        },
        _ => StartupStep { phase: p, action: startup_pending(p) },
    }
}

/// The step a process starts with.
pub fn startup_start() -> (r: StartupStep)
    ensures
        r == (StartupStep { phase: StartupPhase::Detecting, action: StartupAction::DetectInstance }),
{
    StartupStep { phase: StartupPhase::Detecting, action: StartupAction::DetectInstance }
}

/// Decides what startup does next. An event that does not answer the
/// phase's pending work changes nothing and asks for that work again.
pub fn startup_step(phase: StartupPhase, event: StartupEvent) -> (r: StartupStep)
    ensures
        r == startup_next(phase, event),
        // The listener and the window are launched only after the service was
        // reported reachable.
        r.action == StartupAction::Launch
            <==> phase == StartupPhase::AwaitingLiveness && event == (StartupEvent::LivenessReported { reachable: true }),
        // Finding a running instance ends this process with success, and
        // nothing is launched.
        phase == StartupPhase::Detecting && event == (StartupEvent::InstanceDetected { other_instance: true })
            ==> r.phase == (StartupPhase::Exited { success: true }),
        // An unreachable service ends the process with failure.
        phase == StartupPhase::AwaitingLiveness && event == (StartupEvent::LivenessReported { reachable: false })
            ==> r == (StartupStep { phase: StartupPhase::Exited { success: false }, action: StartupAction::ExitUnreachable }),
{
    match (phase, event) {
        (StartupPhase::Detecting, StartupEvent::InstanceDetected { other_instance }) => if other_instance {
            StartupStep { phase: StartupPhase::Exited { success: true }, action: StartupAction::ExitForwarded }
        } else {
            StartupStep { phase: StartupPhase::AwaitingLiveness, action: StartupAction::StartLiveness }
        },
        (StartupPhase::AwaitingLiveness, StartupEvent::LivenessReported { reachable }) => if reachable {
            StartupStep { phase: StartupPhase::Running, action: StartupAction::Launch }
        } else {
            StartupStep { phase: StartupPhase::Exited { success: false }, action: StartupAction::ExitUnreachable }
        },
        _ => {
            let action = match phase {
                StartupPhase::Detecting => StartupAction::DetectInstance,
                StartupPhase::AwaitingLiveness => StartupAction::StartLiveness,
                _ => StartupAction::Idle,
            };
            StartupStep { phase, action }
        },
    }
}

/// The phase startup reaches after a run of events.
pub open spec fn startup_run(p: StartupPhase, events: Seq<StartupEvent>) -> StartupPhase
    decreases events.len(),
{
    if events.len() == 0 {
        p
    } else {
        startup_run(startup_next(p, events[0]).phase, events.drop_first())
    }
}

/// How many times a run of events launches the listener and the window.
pub open spec fn launches(p: StartupPhase, events: Seq<StartupEvent>) -> nat
    decreases events.len(),
{
    if events.len() == 0 {
        0
    } else {
        let s = startup_next(p, events[0]);
        (if s.action == StartupAction::Launch { 1nat } else { 0nat }) + launches(s.phase, events.drop_first())
    }
}

/// Whatever events follow, a process launches at most once, and one that has
/// decided to exit (after handing off to a running instance, or on finding the
/// service unreachable) stays exited and never launches.
pub proof fn lemma_exit_is_final(p: StartupPhase, events: Seq<StartupEvent>)
    ensures
        launches(p, events) <= 1,
        p is Exited ==> launches(p, events) == 0 && startup_run(p, events) == p,
        p == StartupPhase::Running ==> launches(p, events) == 0,
    decreases events.len(),
{
    if events.len() > 0 {
        lemma_exit_is_final(startup_next(p, events[0]).phase, events.drop_first());
    }
}

} // verus!
