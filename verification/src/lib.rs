//! Decoder for the Bluetooth monitor capture format: length-prefixed frames
//! wrapping HCI commands and events, ACL data, L2CAP channel frames and ATT
//! PDUs, together with the stream buffering needed to decode a live byte
//! stream arriving in arbitrary chunks.

pub mod att;
pub mod err;
pub mod hci;
pub mod l2cap;
pub mod monitor;
pub mod stream;
pub mod tty;
pub mod util;
