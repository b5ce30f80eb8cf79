//! Verified core of a client library for MeshCore companion radios.
//!
//! The library decodes the frames a companion device sends back into
//! [`event::Event`]s, encodes the commands an application sends to the device,
//! and holds the decisions the connection makes about incoming events. The
//! Bluetooth LE transport and the asynchronous plumbing live outside this
//! crate and hand the library plain values.

pub mod buffer;
pub mod commands;
pub mod connection;
pub mod error;
pub mod event;
pub mod proto;
pub mod text;
pub mod transport;
