use wiggler::debounce::{ButtonEvent, DebounceState, Level, Phase};

#[test]
fn single_press_release_toggles_once() {
    // Input held low (pressed) then released: exactly one toggle, and
    // the indicator output is driven high.
    let mut s = DebounceState::boot();
    assert_eq!(s.armed, false);
    assert_eq!(s.indicator, Level::Low);

    let out = s.step(ButtonEvent::FallingEdge);
    assert_eq!(out, Some((true, Level::High)));
    assert_eq!(s.armed, true);
    assert_eq!(s.indicator, Level::High);
    assert_eq!(s.phase, Phase::DebounceHold);

    // The hold window elapses, then the release is observed: no further
    // toggle for this press.
    assert_eq!(s.step(ButtonEvent::HoldElapsed), None);
    assert_eq!(s.step(ButtonEvent::ReleasedHigh), None);
    assert_eq!(s.armed, true);
    assert_eq!(s.phase, Phase::WaitFallingEdge);
}

#[test]
fn bounce_in_hold_window_is_swallowed() {
    let mut s = DebounceState::boot();
    assert!(s.step(ButtonEvent::FallingEdge).is_some());
    // Contact chatter during the quiet window: more edges and level
    // observations arrive, none of them toggles anything.
    for _ in 0..5 {
        assert_eq!(s.step(ButtonEvent::FallingEdge), None);
        assert_eq!(s.step(ButtonEvent::ReleasedHigh), None);
    }
    assert_eq!(s.armed, true);
    assert_eq!(s.phase, Phase::DebounceHold);
    assert_eq!(s.step(ButtonEvent::HoldElapsed), None);
    assert_eq!(s.step(ButtonEvent::ReleasedHigh), None);
    assert_eq!(s.armed, true);
    assert_eq!(s.phase, Phase::WaitFallingEdge);
}

#[test]
fn held_button_does_not_repeat() {
    let mut s = DebounceState::boot();
    assert!(s.step(ButtonEvent::FallingEdge).is_some());
    assert_eq!(s.step(ButtonEvent::HoldElapsed), None);
    // The button stays down: further falling edges while waiting for the
    // release toggle nothing.
    for _ in 0..3 {
        assert_eq!(s.step(ButtonEvent::FallingEdge), None);
        assert_eq!(s.armed, true);
    }
    assert_eq!(s.step(ButtonEvent::ReleasedHigh), None);
    assert_eq!(s.phase, Phase::WaitFallingEdge);
}

#[test]
fn double_toggle_restores_state() {
    let mut s = DebounceState::boot();
    let before = s;
    for _ in 0..2 {
        assert!(s.step(ButtonEvent::FallingEdge).is_some());
        assert_eq!(s.step(ButtonEvent::HoldElapsed), None);
        assert_eq!(s.step(ButtonEvent::ReleasedHigh), None);
    }
    assert_eq!(s, before);
    assert_eq!(s.armed, false);
    assert_eq!(s.indicator, Level::Low);
}
