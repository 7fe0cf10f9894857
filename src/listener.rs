//! The local control listener: it holds the session's rendezvous address and
//! turns each request it accepts there into a message for the window.
//!
//! The blocking work (creating the directory, binding, accepting, reading,
//! sleeping, removing the address) is done by the caller; `listener_step`
//! decides, from the phase and what that work gave, what to do next.
use vstd::prelude::*;
use crate::message::{WindowMessage, decode_control_request, request_message};

verus! {

/// The file name of the rendezvous address inside the runtime directory.
pub const RENDEZVOUS_FILE: &'static str = "pipeweaver-app.sock";

/// How long the listener waits, in milliseconds, when no connection is pending.
pub const IDLE_BACKOFF_MS: u64 = 100;

/// Where the listener stands.
#[derive(Clone, Copy, Debug, PartialEq, Eq, Structural)]
pub enum ListenerPhase {
    /// Making sure the address's directory exists.
    Preparing,
    /// Clearing a stale entry and binding the address.
    Binding,
    /// Bound; switching accept to non-blocking.
    Configuring,
    /// Bound and accepting connections.
    Listening,
    /// Done; the address is no longer held.
    Stopped,
}

/// What the work that the last action asked for gave.
#[derive(Debug, PartialEq, Eq)]
pub enum ListenerEvent {
    /// The directory exists (`ok`), or could not be created.
    DirectoryReady { ok: bool },
    /// The address was bound, or binding failed.
    BindAttempted { bound: bool },
    /// Accept was switched to non-blocking, or that failed.
    NonblockingSet { ok: bool },
    /// A connection was accepted and its whole body read.
    Received { body: Vec<u8> },
    /// A connection was accepted but reading its body failed.
    ReadFailed,
    /// No connection was pending.
    NoPendingConnection,
    /// Accept failed for another reason than that none was pending.
    AcceptFailed,
}

/// The work the listener asks for next.
#[derive(Clone, Copy, Debug, PartialEq, Eq, Structural)]
pub enum ListenerAction {
    /// Create the address's directory if it is missing.
    PrepareDirectory,
    /// Remove a stale entry at the address, then bind it.
    ClearAndBind,
    /// Make accept non-blocking.
    SetNonblocking,
    /// Accept the next connection.
    Accept,
    /// Hand this message to the window, then accept the next connection.
    Deliver(WindowMessage),
    /// Drop what was received, then accept the next connection.
    Discard,
    /// Sleep this many milliseconds, then accept the next connection.
    Idle(u64),
    /// Remove the rendezvous entry and end.
    Release,
    /// End without touching the address, which this listener does not hold.
    Stop,
}

/// A phase and the work it asks for.
#[derive(Clone, Copy, Debug, PartialEq, Eq, Structural)]
pub struct ListenerStep {
    pub phase: ListenerPhase,
    pub action: ListenerAction,
}

/// Whether the listener holds the rendezvous address in this phase.
pub open spec fn holds_address(p: ListenerPhase) -> bool {
    p == ListenerPhase::Configuring || p == ListenerPhase::Listening
}

/// The work a phase waits on.
pub open spec fn pending_action(p: ListenerPhase) -> ListenerAction {
    match p {
        ListenerPhase::Preparing => ListenerAction::PrepareDirectory,
        ListenerPhase::Binding => ListenerAction::ClearAndBind,
        ListenerPhase::Configuring => ListenerAction::SetNonblocking,
        ListenerPhase::Listening => ListenerAction::Accept,
        ListenerPhase::Stopped => ListenerAction::Stop,
    }
}

/// The next phase and action on an event.
pub open spec fn listener_next(p: ListenerPhase, e: ListenerEvent) -> ListenerStep {
    match (p, e) {
        (ListenerPhase::Preparing, ListenerEvent::DirectoryReady { ok }) => if ok {
            ListenerStep { phase: ListenerPhase::Binding, action: ListenerAction::ClearAndBind }
        } else {
            ListenerStep { phase: ListenerPhase::Stopped, action: ListenerAction::Stop }
        },
        (ListenerPhase::Binding, ListenerEvent::BindAttempted { bound }) => if bound {
            ListenerStep { phase: ListenerPhase::Configuring, action: ListenerAction::SetNonblocking }
        } else {
            ListenerStep { phase: ListenerPhase::Stopped, action: ListenerAction::Stop }
        },
        (ListenerPhase::Configuring, ListenerEvent::NonblockingSet { ok }) => if ok {
            ListenerStep { phase: ListenerPhase::Listening, action: ListenerAction::Accept }
        } else {
            ListenerStep { phase: ListenerPhase::Stopped, action: ListenerAction::Release }
        },
        (ListenerPhase::Listening, ListenerEvent::Received { body }) => match request_message(body@) {
            Some(m) => ListenerStep { phase: ListenerPhase::Listening, action: ListenerAction::Deliver(m) },
            None => ListenerStep { phase: ListenerPhase::Listening, action: ListenerAction::Discard },
        },
        (ListenerPhase::Listening, ListenerEvent::ReadFailed) =>
            ListenerStep { phase: ListenerPhase::Listening, action: ListenerAction::Discard },
        (ListenerPhase::Listening, ListenerEvent::NoPendingConnection) =>
            ListenerStep { phase: ListenerPhase::Listening, action: ListenerAction::Idle(IDLE_BACKOFF_MS) },
        (ListenerPhase::Listening, ListenerEvent::AcceptFailed) =>
            ListenerStep { phase: ListenerPhase::Stopped, action: ListenerAction::Release },
        _ => ListenerStep { phase: p, action: pending_action(p) },
    }
}

/// The step a new listener starts with.
pub fn listener_start() -> (r: ListenerStep)
    ensures
        r == (ListenerStep { phase: ListenerPhase::Preparing, action: ListenerAction::PrepareDirectory }),
{
    ListenerStep { phase: ListenerPhase::Preparing, action: ListenerAction::PrepareDirectory }
}

/// Decides what the listener does next. An event that does not answer the
/// phase's pending work changes nothing and asks for that work again.
pub fn listener_step(phase: ListenerPhase, event: &ListenerEvent) -> (r: ListenerStep)
    ensures
        r == listener_next(phase, *event),
        // A request is delivered only as the trigger, and only for exactly the
        // trigger text; any other body is dropped and the listener keeps running.
        phase == ListenerPhase::Listening && event is Received ==> r.phase == ListenerPhase::Listening,
        r.action is Deliver ==> r.action == ListenerAction::Deliver(WindowMessage::Trigger),
        // Leaving with the address held always removes it; the address is never
        // removed by a listener that does not hold it.
        holds_address(phase) && r.phase == ListenerPhase::Stopped ==> r.action == ListenerAction::Release,
        r.action == ListenerAction::Release ==> holds_address(phase) && r.phase == ListenerPhase::Stopped,
{
    match (phase, event) {
        (ListenerPhase::Preparing, ListenerEvent::DirectoryReady { ok }) => if *ok {
            ListenerStep { phase: ListenerPhase::Binding, action: ListenerAction::ClearAndBind }
        } else {
            ListenerStep { phase: ListenerPhase::Stopped, action: ListenerAction::Stop }
        },
        (ListenerPhase::Binding, ListenerEvent::BindAttempted { bound }) => if *bound {
            ListenerStep { phase: ListenerPhase::Configuring, action: ListenerAction::SetNonblocking }
        } else {
            ListenerStep { phase: ListenerPhase::Stopped, action: ListenerAction::Stop }
        },
        (ListenerPhase::Configuring, ListenerEvent::NonblockingSet { ok }) => if *ok {
            ListenerStep { phase: ListenerPhase::Listening, action: ListenerAction::Accept }
        } else {
            ListenerStep { phase: ListenerPhase::Stopped, action: ListenerAction::Release }
        },
        (ListenerPhase::Listening, ListenerEvent::Received { body }) => match decode_control_request(body.as_slice()) {
            Some(m) => ListenerStep { phase: ListenerPhase::Listening, action: ListenerAction::Deliver(m) },
            None => ListenerStep { phase: ListenerPhase::Listening, action: ListenerAction::Discard },
        },
        (ListenerPhase::Listening, ListenerEvent::ReadFailed) =>
            ListenerStep { phase: ListenerPhase::Listening, action: ListenerAction::Discard },
        (ListenerPhase::Listening, ListenerEvent::NoPendingConnection) =>
            ListenerStep { phase: ListenerPhase::Listening, action: ListenerAction::Idle(IDLE_BACKOFF_MS) },
        (ListenerPhase::Listening, ListenerEvent::AcceptFailed) =>
            ListenerStep { phase: ListenerPhase::Stopped, action: ListenerAction::Release },
        _ => ListenerStep { phase, action: pending_action_of(phase) },
    }
}

/// The work a phase waits on.
pub fn pending_action_of(phase: ListenerPhase) -> (r: ListenerAction)
    ensures
        r == pending_action(phase),
{
    match phase {
        ListenerPhase::Preparing => ListenerAction::PrepareDirectory,
        ListenerPhase::Binding => ListenerAction::ClearAndBind,
        ListenerPhase::Configuring => ListenerAction::SetNonblocking,
        ListenerPhase::Listening => ListenerAction::Accept,
        ListenerPhase::Stopped => ListenerAction::Stop,
    }
}

/// The phase a listener reaches after a run of events.
pub open spec fn listener_run(p: ListenerPhase, events: Seq<ListenerEvent>) -> ListenerPhase
    decreases events.len(),
{
    if events.len() == 0 {
        p
    } else {
        listener_run(listener_next(p, events[0]).phase, events.drop_first())
    }
}

/// How many messages a run of events hands the window.
pub open spec fn deliveries(p: ListenerPhase, events: Seq<ListenerEvent>) -> nat
    decreases events.len(),
{
    if events.len() == 0 {
        0
    } else {
        let s = listener_next(p, events[0]);
        (if s.action is Deliver { 1nat } else { 0nat }) + deliveries(s.phase, events.drop_first())
    }
}

/// Whether an event is a connection that carried exactly the trigger text.
pub open spec fn is_trigger_request(e: ListenerEvent) -> bool {
    match e {
        ListenerEvent::Received { body } => request_message(body@) is Some,
        _ => false,
    }
}

/// How many connections in a run carried exactly the trigger text.
pub open spec fn trigger_requests(events: Seq<ListenerEvent>) -> nat
    decreases events.len(),
{
    if events.len() == 0 {
        0
    } else {
        (if is_trigger_request(events[0]) { 1nat } else { 0nat }) + trigger_requests(events.drop_first())
    }
}

/// While accept does not fail, a listening listener keeps listening whatever
/// it receives, and hands the window exactly one message for each connection
/// that carried the trigger text and none for any other.
pub proof fn lemma_one_message_per_request(events: Seq<ListenerEvent>)
    requires
        forall|i: int| 0 <= i < events.len() ==> events[i] != ListenerEvent::AcceptFailed,
    ensures
        listener_run(ListenerPhase::Listening, events) == ListenerPhase::Listening,
        deliveries(ListenerPhase::Listening, events) == trigger_requests(events),
    decreases events.len(),
{
    if events.len() > 0 {
        let rest = events.drop_first();
        assert forall|i: int| 0 <= i < rest.len() implies rest[i] != ListenerEvent::AcceptFailed by {
            assert(rest[i] == events[i + 1]);
        }
        assert(events[0] != ListenerEvent::AcceptFailed);
        lemma_one_message_per_request(rest);
    }
}

} // verus!
