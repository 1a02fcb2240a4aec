//! The Bluetooth side of the gamepad: the GATT attribute layout and the
//! decisions of the button, analog stick and GATT server tasks.

pub mod gatt;
pub mod hid;
pub mod stick;
