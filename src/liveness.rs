//! The liveness client: one outbound websocket connection that shows the
//! controlled service is reachable at startup, and whose loss shuts the
//! window down.
//!
//! The caller connects and reads frames; `liveness_step` decides, from the
//! phase and what that gave, what to do next.
use vstd::prelude::*;
use tungstenite::http::Uri;

verus! {

/// http's `Uri`, carried through unread from the endpoint to the connection.
#[verifier::external_type_specification]
#[verifier::external_body]
pub struct ExUri(tungstenite::http::Uri);

/// http's error for a URI that cannot be built; only its presence is read.
#[verifier::external_type_specification]
#[verifier::external_body]
pub struct ExHttpError(tungstenite::http::Error);

/// The scheme of the service's endpoint.
pub const ENDPOINT_SCHEME: &'static str = "ws";

/// The host and port of the service's endpoint.
pub const ENDPOINT_AUTHORITY: &'static str = "localhost:14565";

/// The path of the service's endpoint.
pub const ENDPOINT_PATH: &'static str = "/api/websocket";

/// Whether a URI can be built from a scheme, an authority and a path.
pub uninterp spec fn uri_builds(scheme: Seq<char>, authority: Seq<char>, path: Seq<char>) -> bool;

/// Relies on http's `uri::Builder` (as tungstenite re-exports it): setting
/// the authority, scheme and path and building gives a URI or an error, and
/// which of the two depends on those three texts alone.
#[verifier::external_body]
fn build_uri(authority: &str, scheme: &str, path: &str) -> (r: Result<Uri, tungstenite::http::Error>)
    ensures
        r is Ok <==> uri_builds(scheme@, authority@, path@),
{
    Uri::builder().authority(authority).scheme(scheme).path_and_query(path).build()
}

/// Why the service could not be reached.
#[derive(Clone, Copy, Debug, PartialEq, Eq, Structural)]
pub enum LivenessError {
    /// The endpoint's address is not a valid URI.
    InvalidEndpoint,
    /// The connection could not be made.
    Unreachable,
}

/// Keeps a built URI, or reports that the endpoint is invalid.
pub fn endpoint_from(built: Result<Uri, tungstenite::http::Error>) -> (r: Result<Uri, LivenessError>)
    ensures
        r is Ok <==> built is Ok,
        r is Err ==> r == Err::<Uri, LivenessError>(LivenessError::InvalidEndpoint),
{
    match built {
        Ok(uri) => Ok(uri),
        Err(_) => Err(LivenessError::InvalidEndpoint),
    }
}

/// The URI of the service's websocket endpoint.
pub fn liveness_endpoint() -> (r: Result<Uri, LivenessError>)
    ensures
        r is Ok <==> uri_builds(ENDPOINT_SCHEME@, ENDPOINT_AUTHORITY@, ENDPOINT_PATH@),
        r is Err ==> r == Err::<Uri, LivenessError>(LivenessError::InvalidEndpoint),
{
    endpoint_from(build_uri(ENDPOINT_AUTHORITY, ENDPOINT_SCHEME, ENDPOINT_PATH))
}

/// Where the client stands.
#[derive(Clone, Copy, Debug, PartialEq, Eq, Structural)]
pub enum LivenessPhase {
    /// Making the one connection attempt.
    Connecting,
    /// Connected; reading frames.
    Monitoring,
    /// Finished: never connected, or the connection was lost.
    Closed,
}

/// A frame read from the connection, as far as the client reads it.
#[derive(Debug, PartialEq, Eq)]
pub enum Frame {
    /// A keep-alive ping with its payload.
    Ping(Vec<u8>),
    /// The remote side closes the connection.
    Close,
    /// Any other frame; its payload is not read.
    Other,
}

/// Why reading from the connection failed.
#[derive(Clone, Copy, Debug, PartialEq, Eq, Structural)]
pub enum ReadFailure {
    ConnectionClosed,
    Protocol,
    Other,
}

/// What the work that the last action asked for gave.
#[derive(Debug, PartialEq, Eq)]
pub enum LivenessEvent {
    /// Whether the connection was made.
    Connected { ok: bool },
    /// A frame was read.
    Received(Frame),
    /// Reading failed.
    ReadFailed(ReadFailure),
}

/// The work the client asks for next.
#[derive(Debug, PartialEq, Eq)]
pub enum LivenessAction {
    /// Build the endpoint and connect, once.
    Connect,
    /// Report to startup that the service is reachable, then read.
    ReportReachable,
    /// Report to startup that the service is unreachable, and end.
    ReportUnreachable,
    /// Read the next frame.
    Read,
    /// Answer with a pong carrying this payload, then read.
    Pong(Vec<u8>),
    /// Hand the window a `Close` message, and end.
    NotifyClose,
    /// Nothing more to do.
    Stop,
}

/// A phase and the work it asks for.
#[derive(Debug, PartialEq, Eq)]
pub struct LivenessStep {
    pub phase: LivenessPhase,
    pub action: LivenessAction,
}

/// The work a phase waits on.
pub open spec fn liveness_pending(p: LivenessPhase) -> LivenessAction {
    match p {
        LivenessPhase::Connecting => LivenessAction::Connect,
        LivenessPhase::Monitoring => LivenessAction::Read,
        LivenessPhase::Closed => LivenessAction::Stop,
    }
}

/// The next phase and action on an event.
pub open spec fn liveness_next(p: LivenessPhase, e: LivenessEvent) -> LivenessStep {
    match (p, e) {
        (LivenessPhase::Connecting, LivenessEvent::Connected { ok }) => if ok {
            LivenessStep { phase: LivenessPhase::Monitoring, action: LivenessAction::ReportReachable }
        } else {
            LivenessStep { phase: LivenessPhase::Closed, action: LivenessAction::ReportUnreachable }
        },
        (LivenessPhase::Monitoring, LivenessEvent::Received(Frame::Ping(payload))) =>
            LivenessStep { phase: LivenessPhase::Monitoring, action: LivenessAction::Pong(payload) },
        (LivenessPhase::Monitoring, LivenessEvent::Received(Frame::Close)) =>
            LivenessStep { phase: LivenessPhase::Closed, action: LivenessAction::NotifyClose },
        (LivenessPhase::Monitoring, LivenessEvent::Received(Frame::Other)) =>
            LivenessStep { phase: LivenessPhase::Monitoring, action: LivenessAction::Read },
        (LivenessPhase::Monitoring, LivenessEvent::ReadFailed(_)) =>
            LivenessStep { phase: LivenessPhase::Closed, action: LivenessAction::NotifyClose },
        _ => LivenessStep { phase: p, action: liveness_pending(p) },
    }
}

/// The step a new client starts with.
pub fn liveness_start() -> (r: LivenessStep)
    ensures
        r == (LivenessStep { phase: LivenessPhase::Connecting, action: LivenessAction::Connect }),
{
    LivenessStep { phase: LivenessPhase::Connecting, action: LivenessAction::Connect }
}

/// Decides what the client does next. An event that does not answer the
/// phase's pending work changes nothing and asks for that work again.
pub fn liveness_step(phase: LivenessPhase, event: LivenessEvent) -> (r: LivenessStep)
    ensures
        r == liveness_next(phase, event),
        // The window is told to close exactly when a connection that was up
        // ends, whatever ended it.
        r.action == LivenessAction::NotifyClose
            <==> phase == LivenessPhase::Monitoring && r.phase == LivenessPhase::Closed,
        // A failed first connection is reported and never reaches the window.
        phase == LivenessPhase::Connecting ==> r.action != LivenessAction::NotifyClose,
{
    match (phase, event) {
        (LivenessPhase::Connecting, LivenessEvent::Connected { ok }) => if ok {
            LivenessStep { phase: LivenessPhase::Monitoring, action: LivenessAction::ReportReachable }
        } else {
            LivenessStep { phase: LivenessPhase::Closed, action: LivenessAction::ReportUnreachable }
        },
        (LivenessPhase::Monitoring, LivenessEvent::Received(Frame::Ping(payload))) =>
            LivenessStep { phase: LivenessPhase::Monitoring, action: LivenessAction::Pong(payload) },
        (LivenessPhase::Monitoring, LivenessEvent::Received(Frame::Close)) =>
            LivenessStep { phase: LivenessPhase::Closed, action: LivenessAction::NotifyClose },
        (LivenessPhase::Monitoring, LivenessEvent::Received(Frame::Other)) =>
            LivenessStep { phase: LivenessPhase::Monitoring, action: LivenessAction::Read },
        (LivenessPhase::Monitoring, LivenessEvent::ReadFailed(_)) =>
            LivenessStep { phase: LivenessPhase::Closed, action: LivenessAction::NotifyClose },
        _ => {
            let action = match phase {
                LivenessPhase::Connecting => LivenessAction::Connect,
                LivenessPhase::Monitoring => LivenessAction::Read,
                LivenessPhase::Closed => LivenessAction::Stop,
            };
            LivenessStep { phase, action }
        },
    }
}

/// The phase a client reaches after a run of events.
pub open spec fn liveness_run(p: LivenessPhase, events: Seq<LivenessEvent>) -> LivenessPhase
    decreases events.len(),
{
    if events.len() == 0 {
        p
    } else {
        liveness_run(liveness_next(p, events[0]).phase, events.drop_first())
    }
}

/// How many times a run of events hands the window a `Close` message.
pub open spec fn close_notices(p: LivenessPhase, events: Seq<LivenessEvent>) -> nat
    decreases events.len(),
{
    if events.len() == 0 {
        0
    } else {
        let s = liveness_next(p, events[0]);
        (if s.action == LivenessAction::NotifyClose { 1nat } else { 0nat }) + close_notices(s.phase, events.drop_first())
    }
}

/// Whatever the frames and failures that come, the window is told to close at
/// most once; from an open connection, exactly once if and only if that
/// connection ends.
pub proof fn lemma_close_notified_once(p: LivenessPhase, events: Seq<LivenessEvent>)
    ensures
        close_notices(p, events) <= 1,
        p == LivenessPhase::Closed ==> close_notices(p, events) == 0 && liveness_run(p, events) == LivenessPhase::Closed,
        p == LivenessPhase::Monitoring ==>
            (close_notices(p, events) == 1 <==> liveness_run(p, events) == LivenessPhase::Closed),
    decreases events.len(),
{
    if events.len() > 0 {
        let s = liveness_next(p, events[0]);
        lemma_close_notified_once(s.phase, events.drop_first());
    }
}

} // verus!
