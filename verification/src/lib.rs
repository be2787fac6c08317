//! Emulation of Nintendo Switch controllers over Bluetooth HID: controller
//! state, report framing and the reply protocol, the decisions of a
//! protocol session and of the Bluetooth side, with their contracts.
pub mod addr;
pub mod buffer;
pub mod bytes_spec;
pub mod controller;
pub mod device;
pub mod protocol;
pub mod text;
