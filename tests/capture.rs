use device_query::Keycode;
use input_capture::{
    stamped, Args, CaptureSession, Captured, Forwarded, Forwarder, Hook, InputEvent, Phase,
    PotentialInputEvent, Step, Timestamp, Wake,
};
use std::sync::mpsc::channel;

fn waiting_session() -> CaptureSession<u8, u16, u32> {
    let mut session = CaptureSession::new();
    session.hold_movement(1u8);
    session.hold_button(2u16);
    session.hold_key(3u32);
    session
}

fn drain(rx: &std::sync::mpsc::Receiver<Captured>) -> Vec<PotentialInputEvent> {
    let mut out = Vec::new();
    while let Ok((event, _)) = rx.try_recv() {
        out.push(event);
    }
    out
}

#[test]
fn default_input_event_is_pointer_movement() {
    assert_eq!(InputEvent::default(), InputEvent::MouseMovement);
}

#[test]
fn default_potential_event_is_placeholder() {
    let placeholder = PotentialInputEvent::default();
    assert_eq!(placeholder, PotentialInputEvent::Dummy);
    assert_eq!(placeholder.input_event(), None);
}

#[test]
fn potential_event_yields_held_event() {
    let held = PotentialInputEvent::InputEvent(InputEvent::MouseButton(3));
    assert_eq!(held.input_event(), Some(InputEvent::MouseButton(3)));
}

#[test]
fn hook_values_translate_one_to_one() {
    assert_eq!(InputEvent::from_key(&Keycode::M), InputEvent::KB(Keycode::M));
    assert_eq!(InputEvent::from_button(&2), InputEvent::MouseButton(2));
    assert_eq!(InputEvent::from_movement(&(-4, 50)), InputEvent::MouseMovement);
}

#[test]
fn args_take_nothing() {
    assert_eq!(Args {}, Args {});
}

#[test]
fn timestamp_keeps_instant() {
    let instant = jiff::Timestamp::from_second(123_456_789).unwrap();
    let stamp = Timestamp::from(instant);
    assert_eq!(stamp.instant(), instant);
    assert!(Timestamp::now().instant() > jiff::Timestamp::UNIX_EPOCH);
}

#[test]
fn new_session_registers_and_holds_nothing() {
    let session: CaptureSession<u8, u16, u32> = CaptureSession::new();
    assert_eq!(session.current_phase(), Phase::Registering);
    assert!(!session.holds(Hook::Movement));
    assert!(!session.holds(Hook::Button));
    assert!(!session.holds(Hook::Key));
}

#[test]
fn session_waits_after_third_registration() {
    let mut session: CaptureSession<u8, u16, u32> = CaptureSession::new();
    session.hold_key(3);
    assert_eq!(session.current_phase(), Phase::Registering);
    session.hold_movement(1);
    assert_eq!(session.current_phase(), Phase::Registering);
    session.hold_button(2);
    assert_eq!(session.current_phase(), Phase::Waiting);
    assert!(session.holds(Hook::Movement));
    assert!(session.holds(Hook::Button));
    assert!(session.holds(Hook::Key));
}

#[test]
fn idle_ticks_only_wait() {
    let mut session = waiting_session();
    for _ in 0..100 {
        assert_eq!(session.on_wake(Wake::Tick), Step::Wait);
    }
    assert_eq!(session.current_phase(), Phase::Waiting);
    assert!(session.holds(Hook::Key));
}

#[test]
fn cancel_releases_every_guard() {
    let mut session = waiting_session();
    assert_eq!(session.on_wake(Wake::Tick), Step::Wait);
    assert_eq!(session.on_wake(Wake::Cancel), Step::Release);
    assert_eq!(session.current_phase(), Phase::Cancelled);
    assert!(!session.holds(Hook::Movement));
    assert!(!session.holds(Hook::Button));
    assert!(!session.holds(Hook::Key));
}

#[test]
fn cancel_twice_releases_once() {
    let mut session = waiting_session();
    assert_eq!(session.on_wake(Wake::Cancel), Step::Release);
    assert_eq!(session.on_wake(Wake::Cancel), Step::Exit);
    assert_eq!(session.on_wake(Wake::Tick), Step::Exit);
    assert_eq!(session.current_phase(), Phase::Cancelled);
}

#[test]
fn cancel_drops_the_guards() {
    let counted = std::rc::Rc::new(());
    let mut session: CaptureSession<std::rc::Rc<()>, std::rc::Rc<()>, std::rc::Rc<()>> =
        CaptureSession::new();
    session.hold_movement(counted.clone());
    session.hold_button(counted.clone());
    session.hold_key(counted.clone());
    assert_eq!(std::rc::Rc::strong_count(&counted), 4);
    session.on_wake(Wake::Cancel);
    assert_eq!(std::rc::Rc::strong_count(&counted), 1);
}

#[test]
fn forwarded_keys_keep_their_order() {
    let (tx, rx) = channel();
    let keys = Forwarder::new(tx);
    for code in [Keycode::M, Keycode::O, Keycode::L, Keycode::A] {
        assert!(matches!(keys.forward(InputEvent::from_key(&code)), Forwarded::Delivered));
    }
    let got = drain(&rx);
    let want: Vec<PotentialInputEvent> = [Keycode::M, Keycode::O, Keycode::L, Keycode::A]
        .iter()
        .map(|c| PotentialInputEvent::InputEvent(InputEvent::KB(*c)))
        .collect();
    assert_eq!(got, want);
}

#[test]
fn forwarded_movements_are_not_coalesced() {
    let (tx, rx) = channel();
    let moves = Forwarder::new(tx);
    let positions = [(50, 50), (100, 100), (-4, 50), (-4, -27), (12, -1)];
    for p in positions.iter() {
        moves.forward(InputEvent::from_movement(p));
    }
    let got = drain(&rx);
    assert_eq!(got.len(), 5);
    assert!(got
        .iter()
        .all(|e| *e == PotentialInputEvent::InputEvent(InputEvent::MouseMovement)));
}

#[test]
fn forwarded_buttons_arrive_once_per_press() {
    let (tx, rx) = channel();
    let buttons = Forwarder::new(tx);
    buttons.forward(InputEvent::from_button(&3));
    buttons.forward(InputEvent::from_button(&1));
    assert_eq!(
        drain(&rx),
        vec![
            PotentialInputEvent::InputEvent(InputEvent::MouseButton(3)),
            PotentialInputEvent::InputEvent(InputEvent::MouseButton(1)),
        ]
    );
}

#[test]
fn producers_share_one_channel() {
    let (tx, rx) = channel();
    let keys = Forwarder::new(tx.clone());
    let moves = Forwarder::new(tx.clone());
    let buttons = Forwarder::new(tx);
    keys.forward(InputEvent::from_key(&Keycode::A));
    moves.forward(InputEvent::from_movement(&(1, 1)));
    buttons.forward(InputEvent::from_button(&1));
    let got = drain(&rx);
    assert_eq!(got.len(), 3);
    assert!(got.iter().all(|e| e.input_event().is_some()));
}

#[test]
fn refused_send_returns_event_and_closes_producer() {
    let (tx, rx) = channel();
    let keys = Forwarder::new(tx);
    drop(rx);
    match keys.forward(InputEvent::from_key(&Keycode::L)) {
        Forwarded::Refused((event, _)) => {
            assert_eq!(event, PotentialInputEvent::InputEvent(InputEvent::KB(Keycode::L)))
        }
        other => panic!("expected a refusal, got {:?}", other),
    }
    assert!(matches!(keys.forward(InputEvent::from_key(&Keycode::A)), Forwarded::Closed));
}

#[test]
fn each_producer_notices_refusal_itself() {
    let (tx, rx) = channel();
    let keys = Forwarder::new(tx.clone());
    let moves = Forwarder::new(tx);
    keys.forward(InputEvent::from_key(&Keycode::A));
    moves.forward(InputEvent::from_movement(&(0, 0)));
    assert_eq!(drain(&rx).len(), 2);
    drop(rx);
    assert!(matches!(keys.forward(InputEvent::from_key(&Keycode::A)), Forwarded::Refused(_)));
    assert!(matches!(moves.forward(InputEvent::from_movement(&(0, 0))), Forwarded::Refused(_)));
}

#[test]
fn settle_reports_each_send_result() {
    let (tx, _rx) = channel();
    let keys = Forwarder::new(tx);
    assert!(matches!(keys.settle(Ok(())), Forwarded::Delivered));
    assert!(matches!(keys.forward(InputEvent::from_key(&Keycode::M)), Forwarded::Delivered));
    let item: Captured = (
        PotentialInputEvent::InputEvent(InputEvent::MouseButton(7)),
        Timestamp::now(),
    );
    match keys.settle(Err(item)) {
        Forwarded::Refused((event, _)) => {
            assert_eq!(event, PotentialInputEvent::InputEvent(InputEvent::MouseButton(7)))
        }
        other => panic!("expected a refusal, got {:?}", other),
    }
    assert!(matches!(keys.forward(InputEvent::from_key(&Keycode::O)), Forwarded::Closed));
}

#[test]
fn stamped_holds_the_event() {
    let (event, at) = stamped(InputEvent::KB(Keycode::A));
    assert_eq!(event, PotentialInputEvent::InputEvent(InputEvent::KB(Keycode::A)));
    assert!(at.instant() > jiff::Timestamp::UNIX_EPOCH);
}

#[test]
fn forward_when_closed_sends_nothing() {
    let (tx, rx) = channel();
    let keys = Forwarder::new(tx);
    assert!(matches!(keys.forward_when(false, InputEvent::from_key(&Keycode::M)), Forwarded::Closed));
    assert!(drain(&rx).is_empty());
    assert!(matches!(keys.forward_when(true, InputEvent::from_button(&2)), Forwarded::Delivered));
    assert_eq!(
        drain(&rx),
        vec![PotentialInputEvent::InputEvent(InputEvent::MouseButton(2))]
    );
}
