//! The mouse input report and its wire form.

use vstd::prelude::*;

verus! {

/// Number of bytes in one mouse input report on the wire.
pub const REPORT_LEN: usize = 5;

/// One HID mouse input report: a button bitmap followed by four signed
/// one-byte fields (x, y, vertical wheel, horizontal pan).
#[derive(Clone, Copy, PartialEq, Eq, Structural, Debug)]
pub struct MouseReport {
    pub buttons: u8,
    pub x: i8,
    pub y: i8,
    pub wheel: i8,
    pub pan: i8,
}

impl MouseReport {
    /// The five wire bytes of the report, in the order the report
    /// descriptor declares; each signed field travels as its
    /// two's-complement byte.
    pub open spec fn wire_bytes(self) -> Seq<u8> {
        seq![self.buttons, self.x as u8, self.y as u8, self.wheel as u8, self.pan as u8]
    }

    /// A jitter report moves only the y axis, by exactly `amplitude`.
    pub open spec fn is_jitter(self, amplitude: int) -> bool {
        &&& self.buttons == 0
        &&& self.x == 0
        &&& self.wheel == 0
        &&& self.pan == 0
        &&& (self.y as int == amplitude || self.y as int == -amplitude)
    }

    /// Serialize the report for the interrupt-IN endpoint.
    pub fn serialize(&self) -> (out: Vec<u8>)
        ensures
            out@ == self.wire_bytes(),
            out@.len() == REPORT_LEN,
    {
        let mut out: Vec<u8> = Vec::new();
        out.push(self.buttons);
        out.push(self.x as u8);
        out.push(self.y as u8);
        out.push(self.wheel as u8);
        out.push(self.pan as u8);
        proof {
            assert(out@ =~= self.wire_bytes());
        }
        out
    }
}

} // verus!
