//! The HID class-specific control-request handler.
//!
//! The device supports no host-readable report and no idle rate, so the
//! handler is stateless: every request gets a fixed, total answer, which
//! keeps enumeration succeeding on every host.

use vstd::prelude::*;

verus! {

/// Report id of a class-specific request, as the HID layer presents it:
/// the report direction together with the one-byte id from the request.
#[derive(Clone, Copy, PartialEq, Eq, Structural, Debug)]
pub enum ReportId {
    In(u8),
    Out(u8),
    Feature(u8),
}

/// The device's answer to a host-to-device class request.
#[derive(Clone, Copy, PartialEq, Eq, Structural, Debug)]
pub enum OutResponse {
    Accepted,
    Rejected,
}

/// Answers GET_REPORT, SET_REPORT, GET_IDLE and SET_IDLE with the
/// device's fixed defaults. Stateless: no call changes anything.
#[derive(Clone, Copy, PartialEq, Eq, Structural, Debug)]
pub struct MyRequestHandler {}

impl MyRequestHandler {
    /// GET_REPORT: no report id is supported, whatever the host asks
    /// for; `None` makes the transport answer with an empty response.
    pub fn get_report(&self, _id: ReportId) -> (r: Option<usize>)
        ensures
            r is None,
    {
        None
    }

    /// SET_REPORT: every id and payload is accepted and the data
    /// discarded; nothing in the device changes.
    pub fn set_report(&self, _id: ReportId, _data: &[u8]) -> (r: OutResponse)
        ensures
            r is Accepted,
    {
        OutResponse::Accepted
    }

    /// SET_IDLE: the requested rate is observed and dropped; no idle
    /// rate is persisted or enforced.
    pub fn set_idle_ms(&self, _id: Option<ReportId>, _dur_ms: u32) {
    }

    /// GET_IDLE: `None` tells the host to use the device default,
    /// whatever id it asks about.
    pub fn get_idle_ms(&self, _id: Option<ReportId>) -> (r: Option<u32>)
        ensures
            r is None,
    {
        None
    }
}

} // verus!
