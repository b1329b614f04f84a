//! Core of a desktop companion service for a USB HID macro-keypad.
//!
//! The library covers the device communication layer: the fixed 32-byte
//! packet framing and its codec, the session state machine that discovers
//! and holds the device, the receive/dispatch protocol engine driving
//! per-application volume queries and changes, and the periodic telemetry
//! push. All I/O (HID transport, OS audio mixer, system sampling) is left
//! to the embedding application, which feeds plain values in and carries
//! the decided actions out.

pub mod engine;
pub mod error;
pub mod packet;
pub mod session;
pub mod settings;
pub mod telemetry;
pub mod volume;

pub use engine::Command;
pub use engine::TickOutcome;
pub use engine::READ_TIMEOUT_MS;
pub use engine::TELEMETRY_INTERVAL_MS;
pub use engine::VOLUME_UNAVAILABLE;
pub use error::ErrorKind;
pub use error::HidError;
pub use packet::Packet;
pub use packet::PacketHeader;
pub use packet::FRAME_LEN;
pub use packet::PACKET_INIT;
pub use packet::PAYLOAD_LEN;
pub use session::DeviceId;
pub use session::SessionAction;
pub use session::SessionEvent;
pub use session::SessionState;
pub use session::INTERFACE_NUMBER;
pub use session::PRODUCT_ID;
pub use session::RECONNECT_BACKOFF_MS;
pub use session::VENDOR_ID;
pub use settings::Settings;
pub use settings::FIRST_KEY;
pub use settings::LAST_KEY;
pub use volume::AppEntry;
pub use volume::Volume;
pub use volume::VOLUME_STEP;
pub use volume::VOLUME_UP_CODE;
