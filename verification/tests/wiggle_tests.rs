use wiggler::device::JITTER_AMPLITUDE;
use wiggler::report::MouseReport;
use wiggler::wiggle::WiggleState;

#[test]
fn armed_tick_attempts_minus_five_from_plus_five() {
    // Armed sampled at a tick boundary, prior y = +5: the next
    // transmitted report is {0, 0, -5, 0, 0}.
    let mut s = WiggleState::new();
    assert_eq!(s.current_y(), 5);
    let report = s.tick(true);
    assert_eq!(
        report,
        Some(MouseReport { buttons: 0, x: 0, y: -5, wheel: 0, pan: 0 })
    );
    // The transport accepts it: the sign state advances.
    s.confirm_sent();
    assert_eq!(s.current_y(), -5);
}

#[test]
fn disarmed_tick_sends_nothing() {
    // Disarmed at sample time: zero transmissions that period, and the
    // sign state is untouched.
    let mut s = WiggleState::new();
    for _ in 0..4 {
        assert_eq!(s.tick(false), None);
        assert_eq!(s.current_y(), 5);
    }
}

#[test]
fn alternation_over_successful_sends() {
    let mut s = WiggleState::new();
    let mut last_y: i8 = 0;
    for i in 0..6 {
        let report = s.tick(true).expect("armed tick must build a report");
        assert_eq!(report.buttons, 0);
        assert_eq!(report.x, 0);
        assert_eq!(report.wheel, 0);
        assert_eq!(report.pan, 0);
        assert_eq!(report.y.unsigned_abs(), JITTER_AMPLITUDE as u8);
        if i > 0 {
            assert_eq!(report.y, -last_y);
        }
        last_y = report.y;
        s.confirm_sent();
    }
}

#[test]
fn failed_send_keeps_the_alternation() {
    // One cycle's send fails: the report is discarded, nothing is
    // retried that cycle, and the next cycle samples and attempts
    // normally, continuing the sign alternation from the last
    // successful send.
    let mut s = WiggleState::new();
    let first = s.tick(true).unwrap();
    assert_eq!(first.y, -5);
    s.confirm_sent();
    // The transport rejects this one; it is dropped without a confirm.
    let failed = s.tick(true).unwrap();
    assert_eq!(failed.y, 5);
    // Next cycle: the attempt still negates the last *successful* send.
    let next = s.tick(true).unwrap();
    assert_eq!(next.y, 5);
    s.confirm_sent();
    let after = s.tick(true).unwrap();
    assert_eq!(after.y, -5);
    // The successful sends were -5, +5, (-5 pending): strict alternation.
}

#[test]
fn report_serializes_to_five_wire_bytes() {
    let report = MouseReport { buttons: 0, x: 0, y: -5, wheel: 0, pan: 0 };
    let bytes = report.serialize();
    assert_eq!(bytes, vec![0x00, 0x00, 0xFB, 0x00, 0x00]);

    let other = MouseReport { buttons: 0x81, x: -1, y: 5, wheel: 2, pan: -128 };
    assert_eq!(other.serialize(), vec![0x81, 0xFF, 0x05, 0x02, 0x80]);
}
