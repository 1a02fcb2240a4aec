//! Verified decision logic of a BBC micro:bit Bluetooth LE gamepad.
//!
//! The firmware reads six buttons and an analog stick, serves them over a
//! GATT server, shows what happens on the LED matrix and plays tunes when a
//! central connects or goes away. Everything that waits on hardware or on
//! the radio is driven from outside; this library decides, for each event
//! the hardware hands it, what the firmware does next.

pub mod ble;
pub mod io;
pub mod session;
