//! The HID report descriptor: the immutable byte sequence, built once
//! at startup, that tells the host's HID driver how to read the
//! five-byte mouse report of [`crate::report::MouseReport`].
//!
//! Layout described: an application-level Mouse collection holding a
//! physical Pointer collection with an eight-button bitmap (one byte,
//! absolute), the relative x, y and wheel axes (one signed byte each),
//! and a relative horizontal-pan axis (one signed byte) from the
//! Consumer page — forty input bits, so one report is five bytes.

use vstd::prelude::*;

verus! {

/// Length of the report descriptor in bytes.
pub const DESCRIPTOR_LEN: usize = 61;

/// The descriptor bytes: HID short items, two bytes each (tag, then
/// payload) except the two-byte-payload AC Pan usage and the bare
/// end-collection tags.
pub open spec fn mouse_descriptor_bytes() -> Seq<u8> {
    seq![
        0x05u8, 0x01,  // Usage Page (Generic Desktop)
        0x09, 0x02,  // Usage (Mouse)
        0xA1, 0x01,  // Collection (Application)
        0x09, 0x01,  //   Usage (Pointer)
        0xA1, 0x00,  //   Collection (Physical)
        0x05, 0x09,  //     Usage Page (Button)
        0x19, 0x01,  //     Usage Minimum (Button 1)
        0x29, 0x08,  //     Usage Maximum (Button 8)
        0x15, 0x00,  //     Logical Minimum (0)
        0x25, 0x01,  //     Logical Maximum (1)
        0x75, 0x01,  //     Report Size (1)
        0x95, 0x08,  //     Report Count (8)
        0x81, 0x02,  //     Input (Data, Variable, Absolute): buttons
        0x05, 0x01,  //     Usage Page (Generic Desktop)
        0x09, 0x30,  //     Usage (X)
        0x09, 0x31,  //     Usage (Y)
        0x09, 0x38,  //     Usage (Wheel)
        0x15, 0x81,  //     Logical Minimum (-127)
        0x25, 0x7F,  //     Logical Maximum (127)
        0x75, 0x08,  //     Report Size (8)
        0x95, 0x03,  //     Report Count (3)
        0x81, 0x06,  //     Input (Data, Variable, Relative): x, y, wheel
        0x05, 0x0C,  //     Usage Page (Consumer)
        0x0A, 0x38, 0x02,  // Usage (AC Pan)
        0x15, 0x81,  //     Logical Minimum (-127)
        0x25, 0x7F,  //     Logical Maximum (127)
        0x75, 0x08,  //     Report Size (8)
        0x95, 0x01,  //     Report Count (1)
        0x81, 0x06,  //     Input (Data, Variable, Relative): pan
        0xC0,  //   End Collection
        0xC0,  // End Collection
    ]
}

/// Builds the report descriptor handed to the HID class registration.
#[verifier::rlimit(50)]
pub fn mouse_descriptor() -> (out: Vec<u8>)
    ensures
        out@ == mouse_descriptor_bytes(),
        out@.len() == DESCRIPTOR_LEN,
{
    let mut out: Vec<u8> = Vec::new();
    out.push(0x05);
    out.push(0x01);
    out.push(0x09);
    out.push(0x02);
    out.push(0xA1);
    out.push(0x01);
    out.push(0x09);
    out.push(0x01);
    out.push(0xA1);
    out.push(0x00);
    out.push(0x05);
    out.push(0x09);
    out.push(0x19);
    out.push(0x01);
    out.push(0x29);
    out.push(0x08);
    out.push(0x15);
    out.push(0x00);
    out.push(0x25);
    out.push(0x01);
    out.push(0x75);
    out.push(0x01);
    out.push(0x95);
    out.push(0x08);
    out.push(0x81);
    out.push(0x02);
    out.push(0x05);
    out.push(0x01);
    out.push(0x09);
    out.push(0x30);
    out.push(0x09);
    out.push(0x31);
    out.push(0x09);
    out.push(0x38);
    out.push(0x15);
    out.push(0x81);
    out.push(0x25);
    out.push(0x7F);
    out.push(0x75);
    out.push(0x08);
    out.push(0x95);
    out.push(0x03);
    out.push(0x81);
    out.push(0x06);
    out.push(0x05);
    out.push(0x0C);
    out.push(0x0A);
    out.push(0x38);
    out.push(0x02);
    out.push(0x15);
    out.push(0x81);
    out.push(0x25);
    out.push(0x7F);
    out.push(0x75);
    out.push(0x08);
    out.push(0x95);
    out.push(0x01);
    out.push(0x81);
    out.push(0x06);
    out.push(0xC0);
    out.push(0xC0);
    proof {
        assert(out@ =~= mouse_descriptor_bytes());
    }
    out
}

} // verus!
