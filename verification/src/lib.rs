//! Ultra-wideband ranging between DWM1001 anchors and tags.
//!
//! Anchors advertise themselves once and then answer ranging requests; tags discover
//! the anchors and range with them in turn. This library holds the protocol logic
//! as state machines that the firmware drives one radio action at a time, the
//! handshake messages, the device settings, the distance a ranging response
//! measures, and the small text helpers the firmware writes to its serial port with.
pub mod anchor;
pub mod config;
pub mod digits;
pub mod handshake;
pub mod pinged_tag;
pub mod radio;
pub mod ranging;
pub mod tag;
pub mod uart;

pub use config::UWBConfig;
pub use digits::base_10_bytes;
pub use uart::uart_line;
