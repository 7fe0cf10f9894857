//! The messages that background channels hand to the window, and the control
//! request that a new process sends to a running one.
use vstd::prelude::*;

verus! {

/// An event from a background channel to the window.
#[derive(Clone, Copy, Debug, PartialEq, Eq, Structural)]
pub enum WindowMessage {
    /// Bring the window to the front.
    Trigger,
    /// Begin a graceful shutdown.
    Close,
}

/// What the window does on one message.
#[derive(Clone, Copy, Debug, PartialEq, Eq, Structural)]
pub enum WindowAction {
    BringToFront,
    Shutdown,
}

/// The action that belongs to a message.
pub open spec fn action_of(m: WindowMessage) -> WindowAction {
    match m {
        WindowMessage::Trigger => WindowAction::BringToFront,
        WindowMessage::Close => WindowAction::Shutdown,
    }
}

/// The actions for a run of messages: one each, in the order received.
pub open spec fn actions_of(pending: Seq<WindowMessage>) -> Seq<WindowAction> {
    pending.map_values(|m: WindowMessage| action_of(m))
}

/// The bytes of the control request: the ASCII text `TRIGGER`.
pub open spec fn trigger_request() -> Seq<u8> {
    seq![84u8, 82u8, 73u8, 71u8, 71u8, 69u8, 82u8]
}

/// The message that a received request body stands for, if any.
pub open spec fn request_message(body: Seq<u8>) -> Option<WindowMessage> {
    if body == trigger_request() {
        Some(WindowMessage::Trigger)
    } else {
        None
    }
}

/// The action the window takes on one message.
pub fn window_action(m: WindowMessage) -> (r: WindowAction)
    ensures
        r == action_of(m),
{
    match m {
        WindowMessage::Trigger => WindowAction::BringToFront,
        WindowMessage::Close => WindowAction::Shutdown,
    }
}

/// The actions for all messages drained in one poll, in the order drained.
pub fn dispatch_all(pending: &Vec<WindowMessage>) -> (r: Vec<WindowAction>)
    ensures
        r@ == actions_of(pending@),
{
    let mut out: Vec<WindowAction> = Vec::new();
    let mut i: usize = 0;
    while i < pending.len()
        invariant
            i <= pending@.len(),
            out@ == actions_of(pending@.subrange(0, i as int)),
        decreases pending@.len() - i,
    {
        out.push(window_action(pending[i]));
        assert(pending@.subrange(0, i + 1) == pending@.subrange(0, i as int).push(pending@[i as int]));
        i = i + 1;
    }
    assert(pending@.subrange(0, pending@.len() as int) == pending@);
    out
}

/// The request body that a new process sends to the running instance.
pub fn control_request() -> (r: Vec<u8>)
    ensures
        r@ == trigger_request(),
{
    let r: Vec<u8> = vec![84u8, 82u8, 73u8, 71u8, 71u8, 69u8, 82u8];
    assert(r@ == trigger_request());
    r
}

/// Reads a received request body: exactly the trigger text is a request to
/// bring the window forward; anything else, the empty body included, is none.
pub fn decode_control_request(body: &[u8]) -> (r: Option<WindowMessage>)
    ensures
        r == request_message(body@),
{
    let expected = control_request();
    if body.len() != expected.len() {
        return None;
    }
    let mut i: usize = 0;
    while i < body.len()
        invariant
            body@.len() == expected@.len(),
            expected@ == trigger_request(),
            i <= body@.len(),
            forall|k: int| 0 <= k < i ==> body@[k] == expected@[k],
        decreases body@.len() - i,
    {
        if body[i] != expected[i] {
            return None;
        }
        i = i + 1;
    }
    assert(body@ == trigger_request());
    Some(WindowMessage::Trigger)
}

/// What a new process sends, the running instance reads as exactly one request
/// to bring its window forward.
pub proof fn lemma_forwarded_request_is_trigger()
    ensures
        request_message(trigger_request()) == Some(WindowMessage::Trigger),
{
}

/// Messages drained over two polls give the same actions, in the same order,
/// as the same messages drained in one: none is lost, repeated or reordered.
pub proof fn lemma_dispatch_over_polls(first: Seq<WindowMessage>, second: Seq<WindowMessage>)
    ensures
        actions_of(first + second) == actions_of(first) + actions_of(second),
{
    assert(actions_of(first + second) =~= actions_of(first) + actions_of(second));
}

} // verus!
