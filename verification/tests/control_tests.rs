use wiggler::control::{MyRequestHandler, OutResponse, ReportId};

#[test]
fn get_report_is_never_supported() {
    let handler = MyRequestHandler {};
    let ids = [
        ReportId::In(0),
        ReportId::In(1),
        ReportId::Out(7),
        ReportId::Feature(255),
    ];
    for id in ids {
        assert_eq!(handler.get_report(id), None);
    }
}

#[test]
fn set_report_accepts_any_payload() {
    let handler = MyRequestHandler {};
    assert_eq!(handler.set_report(ReportId::Out(0), &[]), OutResponse::Accepted);
    assert_eq!(
        handler.set_report(ReportId::Out(3), &[0xDE, 0xAD, 0xBE, 0xEF]),
        OutResponse::Accepted
    );
    assert_eq!(
        handler.set_report(ReportId::Feature(9), &[1, 2, 3, 4, 5, 6, 7, 8]),
        OutResponse::Accepted
    );
}

#[test]
fn idle_rate_uses_device_default() {
    let handler = MyRequestHandler {};
    assert_eq!(handler.get_idle_ms(None), None);
    assert_eq!(handler.get_idle_ms(Some(ReportId::In(2))), None);
    // SET_IDLE is observed and dropped; a later GET_IDLE still reports
    // the device default.
    handler.set_idle_ms(None, 500);
    handler.set_idle_ms(Some(ReportId::In(2)), 42);
    assert_eq!(handler.get_idle_ms(Some(ReportId::In(2))), None);
}
