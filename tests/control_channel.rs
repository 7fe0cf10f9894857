use pipeweaver_app::detector::{detector_start, detector_step, DetectorAction, DetectorEvent, DetectorPhase, DetectorStep};
use pipeweaver_app::listener::{listener_start, listener_step, ListenerAction, ListenerEvent, ListenerPhase, ListenerStep, IDLE_BACKOFF_MS, RENDEZVOUS_FILE};
use pipeweaver_app::message::{control_request, decode_control_request, dispatch_all, window_action, WindowAction, WindowMessage};
use pipeweaver_app::APP_NAME;

fn listening() -> ListenerPhase {
    let s = listener_step(ListenerPhase::Preparing, &ListenerEvent::DirectoryReady { ok: true });
    assert_eq!(s.action, ListenerAction::ClearAndBind);
    let s = listener_step(s.phase, &ListenerEvent::BindAttempted { bound: true });
    assert_eq!(s.action, ListenerAction::SetNonblocking);
    let s = listener_step(s.phase, &ListenerEvent::NonblockingSet { ok: true });
    assert_eq!(s, ListenerStep { phase: ListenerPhase::Listening, action: ListenerAction::Accept });
    s.phase
}

#[test]
fn control_request_is_trigger_text() {
    assert_eq!(control_request(), b"TRIGGER".to_vec());
}

#[test]
fn trigger_text_decodes_to_trigger() {
    assert_eq!(decode_control_request(b"TRIGGER"), Some(WindowMessage::Trigger));
    assert_eq!(decode_control_request(&control_request()), Some(WindowMessage::Trigger));
}

#[test]
fn other_bodies_decode_to_nothing() {
    assert_eq!(decode_control_request(b""), None);
    assert_eq!(decode_control_request(b"TRIGGE"), None);
    assert_eq!(decode_control_request(b"TRIGGERS"), None);
    assert_eq!(decode_control_request(b"trigger"), None);
    assert_eq!(decode_control_request(b"TRIGGER\n"), None);
    assert_eq!(decode_control_request(&[0xff, 0xfe]), None);
}

#[test]
fn rendezvous_file_is_named_after_the_app() {
    assert_eq!(RENDEZVOUS_FILE, format!("{}.sock", APP_NAME));
}

#[test]
fn listener_delivers_one_trigger_per_request() {
    let phase = listening();
    let s = listener_step(phase, &ListenerEvent::Received { body: b"TRIGGER".to_vec() });
    assert_eq!(s, ListenerStep { phase: ListenerPhase::Listening, action: ListenerAction::Deliver(WindowMessage::Trigger) });
}

#[test]
fn listener_discards_other_bodies_and_keeps_running() {
    let phase = listening();
    for body in [Vec::new(), b"HELLO".to_vec(), b"TRIGGERTRIGGER".to_vec()] {
        let s = listener_step(phase, &ListenerEvent::Received { body });
        assert_eq!(s, ListenerStep { phase: ListenerPhase::Listening, action: ListenerAction::Discard });
    }
    let s = listener_step(phase, &ListenerEvent::ReadFailed);
    assert_eq!(s, ListenerStep { phase: ListenerPhase::Listening, action: ListenerAction::Discard });
}

#[test]
fn listener_idles_when_nothing_is_pending() {
    let s = listener_step(listening(), &ListenerEvent::NoPendingConnection);
    assert_eq!(s, ListenerStep { phase: ListenerPhase::Listening, action: ListenerAction::Idle(100) });
    assert_eq!(IDLE_BACKOFF_MS, 100);
}

#[test]
fn listener_releases_address_on_accept_failure() {
    let s = listener_step(listening(), &ListenerEvent::AcceptFailed);
    assert_eq!(s, ListenerStep { phase: ListenerPhase::Stopped, action: ListenerAction::Release });
}

#[test]
fn listener_start_and_setup_failures() {
    assert_eq!(listener_start(), ListenerStep { phase: ListenerPhase::Preparing, action: ListenerAction::PrepareDirectory });
    let s = listener_step(ListenerPhase::Preparing, &ListenerEvent::DirectoryReady { ok: false });
    assert_eq!(s, ListenerStep { phase: ListenerPhase::Stopped, action: ListenerAction::Stop });
    let s = listener_step(ListenerPhase::Binding, &ListenerEvent::BindAttempted { bound: false });
    assert_eq!(s, ListenerStep { phase: ListenerPhase::Stopped, action: ListenerAction::Stop });
    let s = listener_step(ListenerPhase::Configuring, &ListenerEvent::NonblockingSet { ok: false });
    assert_eq!(s, ListenerStep { phase: ListenerPhase::Stopped, action: ListenerAction::Release });
}

#[test]
fn listener_ignores_events_out_of_turn() {
    let s = listener_step(ListenerPhase::Preparing, &ListenerEvent::AcceptFailed);
    assert_eq!(s, ListenerStep { phase: ListenerPhase::Preparing, action: ListenerAction::PrepareDirectory });
    let s = listener_step(ListenerPhase::Stopped, &ListenerEvent::Received { body: b"TRIGGER".to_vec() });
    assert_eq!(s, ListenerStep { phase: ListenerPhase::Stopped, action: ListenerAction::Stop });
}

#[test]
fn detector_absent_address_means_no_instance() {
    let s = detector_start();
    assert_eq!(s, DetectorStep { phase: DetectorPhase::Checking, action: DetectorAction::CheckAddress });
    let s = detector_step(s.phase, DetectorEvent::AddressChecked { present: false });
    assert_eq!(s, DetectorStep { phase: DetectorPhase::Done { other_instance: false }, action: DetectorAction::Finish });
}

#[test]
fn detector_removes_stale_address() {
    let s = detector_step(DetectorPhase::Checking, DetectorEvent::AddressChecked { present: true });
    assert_eq!(s, DetectorStep { phase: DetectorPhase::Probing, action: DetectorAction::Connect });
    let s = detector_step(s.phase, DetectorEvent::ConnectAttempted { connected: false });
    assert_eq!(s, DetectorStep { phase: DetectorPhase::Done { other_instance: false }, action: DetectorAction::RemoveStale });
    // Once the stale entry is gone, a new listener binds the address.
    let s = listener_step(ListenerPhase::Binding, &ListenerEvent::BindAttempted { bound: true });
    assert_eq!(s.phase, ListenerPhase::Configuring);
}

#[test]
fn detector_forwards_to_running_instance() {
    let s = detector_step(DetectorPhase::Probing, DetectorEvent::ConnectAttempted { connected: true });
    assert_eq!(s, DetectorStep { phase: DetectorPhase::Done { other_instance: true }, action: DetectorAction::SendRequest });
    let s = detector_step(s.phase, DetectorEvent::AddressChecked { present: false });
    assert_eq!(s, DetectorStep { phase: DetectorPhase::Done { other_instance: true }, action: DetectorAction::Finish });
}

#[test]
fn window_actions_follow_messages() {
    assert_eq!(window_action(WindowMessage::Trigger), WindowAction::BringToFront);
    assert_eq!(window_action(WindowMessage::Close), WindowAction::Shutdown);
    assert_eq!(dispatch_all(&Vec::new()), Vec::new());
    let pending = vec![WindowMessage::Close, WindowMessage::Trigger, WindowMessage::Trigger];
    assert_eq!(
        dispatch_all(&pending),
        vec![WindowAction::Shutdown, WindowAction::BringToFront, WindowAction::BringToFront]
    );
}

#[test]
fn interleaved_producers_are_all_delivered_in_order() {
    let (tx, rx) = std::sync::mpsc::channel();
    let listener_tx = tx.clone();
    let liveness_tx = tx;
    // The listener's messages, in its send order, and the liveness client's one.
    listener_tx.send((0u8, WindowMessage::Trigger)).unwrap();
    liveness_tx.send((1u8, WindowMessage::Close)).unwrap();
    listener_tx.send((0u8, WindowMessage::Trigger)).unwrap();
    let mut drained = Vec::new();
    while let Ok(m) = rx.try_recv() {
        drained.push(m);
    }
    let from_listener: Vec<WindowMessage> = drained.iter().filter(|m| m.0 == 0).map(|m| m.1).collect();
    let from_liveness: Vec<WindowMessage> = drained.iter().filter(|m| m.0 == 1).map(|m| m.1).collect();
    assert_eq!(from_listener, vec![WindowMessage::Trigger, WindowMessage::Trigger]);
    assert_eq!(from_liveness, vec![WindowMessage::Close]);
    let messages: Vec<WindowMessage> = drained.iter().map(|m| m.1).collect();
    let actions = dispatch_all(&messages);
    assert_eq!(actions.len(), 3);
    assert_eq!(actions.iter().filter(|a| **a == WindowAction::BringToFront).count(), 2);
    assert_eq!(actions.iter().filter(|a| **a == WindowAction::Shutdown).count(), 1);
}
