//! Choosing the device to connect to.

pub mod ble;
