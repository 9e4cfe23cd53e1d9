use tracker_core::timers::{ActionId, Timers};
use tracker_core::wtime::{Duration, FromFrames, Winstant};

#[test]
fn debounce_first_call_always_fires() {
    let mut timers = Timers::new();
    assert!(timers.run_action_debounced(ActionId::Play, Duration::from_millis(200), Winstant(10)));
}

#[test]
fn debounce_suppresses_at_exact_interval() {
    // 200 ms is 12 frames; a second call at exactly t0 + 12 is suppressed.
    let mut timers = Timers::new();
    assert!(timers.run_action_debounced(ActionId::Play, Duration::from_millis(200), Winstant(10)));
    assert!(!timers.run_action_debounced(ActionId::Play, Duration::from_millis(200), Winstant(22)));
}

#[test]
fn debounce_fires_strictly_after_interval() {
    let mut timers = Timers::new();
    assert!(timers.run_action_debounced(ActionId::Play, Duration::from_millis(200), Winstant(10)));
    assert!(timers.run_action_debounced(ActionId::Play, Duration::from_millis(200), Winstant(23)));
}

#[test]
fn debounce_suppressed_call_keeps_old_record() {
    // A suppressed attempt does not refresh the record: the next firing is
    // still measured from the first one.
    let mut timers = Timers::new();
    assert!(timers.run_action_debounced(ActionId::Play, Duration::from_millis(200), Winstant(0)));
    assert!(!timers.run_action_debounced(ActionId::Play, Duration::from_millis(200), Winstant(12)));
    assert!(timers.run_action_debounced(ActionId::Play, Duration::from_millis(200), Winstant(13)));
}

#[test]
fn debounce_tracks_actions_independently() {
    let mut timers = Timers::new();
    assert!(timers.run_action_debounced(ActionId::Play, Duration::from_millis(200), Winstant(10)));
    assert!(timers.run_action_debounced(ActionId::Persist, Duration::from_millis(200), Winstant(10)));
    assert!(!timers.run_action_debounced(ActionId::Play, Duration::from_millis(200), Winstant(15)));
}

#[test]
fn init_forgets_last_firings() {
    let mut timers = Timers::new();
    assert!(timers.run_action_debounced(ActionId::Play, Duration::from_millis(200), Winstant(10)));
    timers.init();
    assert!(timers.run_action_debounced(ActionId::Play, Duration::from_millis(200), Winstant(11)));
}

#[test]
fn intervals_register_and_cancel() {
    let mut timers = Timers::new();
    timers.set_interval(7);
    timers.set_interval(9);
    timers.set_interval(7);
    assert_eq!(timers.tick(), vec![7, 9, 7]);
    assert!(timers.has_interval(7));
    timers.cancel_interval(7);
    assert_eq!(timers.tick(), vec![9]);
    assert!(!timers.has_interval(7));
    assert!(timers.has_interval(9));
}

#[test]
fn duration_millis_to_frames() {
    // 1000/60 rounds down to 16 ms per frame.
    assert_eq!(Duration::from_millis(200).frames(), 12);
    assert_eq!(Duration::from_millis(16).frames(), 1);
    assert_eq!(Duration::from_millis(15).frames(), 0);
    assert_eq!(Duration::from_frames(2).as_millis(), 32);
}

#[test]
fn winstant_ordering_helpers() {
    let t0 = Winstant(100);
    assert_eq!(t0.plus(Duration::from_millis(200)).0, 112);
    assert!(Winstant(113).is_after_by(t0, Duration::from_millis(200)));
    assert!(!Winstant(112).is_after_by(t0, Duration::from_millis(200)));
    assert!(Winstant(111).is_before_by(t0, Duration::from_millis(200)));
    assert!(!Winstant(112).is_before_by(t0, Duration::from_millis(200)));
    assert_eq!(Winstant(112).duration_since(t0).as_millis(), 12 * 16);
}
