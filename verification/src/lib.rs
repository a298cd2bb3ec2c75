//! Driver core for an HD44780-compatible character display on a 4-bit bus:
//! row addressing, conservative open-loop timing, the nibble/byte strobe
//! protocol, the controller state machine with DDRAM/CGRAM addressing, and
//! a Unicode-to-device-charset encoder with layered fallbacks.

pub mod controller;
pub mod encoder;
pub mod rows;
pub mod signal;
pub mod timing;
pub mod transport;
