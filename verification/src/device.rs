//! Fixed device parameters: USB identity, endpoint settings and the
//! timing constants of the two tasks. All are compiled in; nothing is
//! configurable or persisted across resets.

use vstd::prelude::*;

verus! {

/// Jitter amplitude: the magnitude of every emitted y movement.
pub const JITTER_AMPLITUDE: i8 = 5;

/// Quiet window after a button edge, in milliseconds.
pub const DEBOUNCE_HOLD_MS: u64 = 10;

/// Period of the report generator, in milliseconds.
pub const REPORT_PERIOD_MS: u64 = 500;

/// Polling interval requested for the interrupt-IN endpoint.
pub const HID_POLL_MS: u8 = 60;

/// Largest report packet on the interrupt-IN endpoint, in bytes.
pub const HID_MAX_PACKET_SIZE: u16 = 8;

/// The device identity presented to the host during enumeration.
pub struct UsbIdentity {
    pub vendor_id: u16,
    pub product_id: u16,
    pub manufacturer: &'static str,
    pub product: &'static str,
    pub serial_number: &'static str,
    /// Maximum power draw, in milliamperes.
    pub max_power_ma: u16,
    /// Maximum packet size on the control endpoint, in bytes.
    pub max_packet_size_0: u8,
}

/// Builds the one identity this device ever reports.
pub fn usb_identity() -> (id: UsbIdentity)
    ensures
        id.vendor_id == 0xc0de,
        id.product_id == 0xcafe,
        id.manufacturer@ == "Fx137"@,
        id.product@ == "Wiggle wiggle wiggle"@,
        id.serial_number@ == "13371337"@,
        id.max_power_ma == 100,
        id.max_packet_size_0 == 64,
{
    UsbIdentity {
        vendor_id: 0xc0de,
        product_id: 0xcafe,
        manufacturer: "Fx137",
        product: "Wiggle wiggle wiggle",
        serial_number: "13371337",
        max_power_ma: 100,
        max_packet_size_0: 64,
    }
}

} // verus!
