//! Core of a networked volume-control service.
//!
//! The crate models the four components around an exclusively owned audio
//! resource: the command actor that serializes access to it, the update
//! fan-out towards connected clients, the command server's wire protocol and
//! request/response correlation, and the service-discovery subsystem with its
//! enable/disable policies.

pub mod channel;
pub mod click;
pub mod codec;
pub mod incoming;
pub mod platform;
pub mod server;
pub mod service_discovery;
pub mod service_register;
pub mod shared;
pub mod storage;
pub mod text;
pub mod tray;
pub mod util;
pub mod volume;
pub mod volume_control;
