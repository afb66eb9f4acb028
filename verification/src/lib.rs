//! Logic of a USB mouse-jiggler device: a debounced button toggles an
//! armed flag, and while armed a periodic task emits small alternating
//! vertical mouse movements over a HID interrupt-IN endpoint.

pub mod control;
pub mod debounce;
pub mod descriptor;
pub mod device;
pub mod report;
pub mod wiggle;
