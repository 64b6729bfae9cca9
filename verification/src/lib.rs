//! A duplex relay bridging a serial (USB) byte link to a WebSocket endpoint.
//!
//! The crate holds the verified core of the bridge: the packet data model and
//! frame codec, the framed transport over a byte stream, the serial port
//! resolution rules, the WebSocket handshake request, and the reconnect and
//! epoch state machines that keep the relay alive across transient failures.

pub mod codec;
pub mod config;
pub mod engine;
pub mod epoch;
pub mod frame;
pub mod handshake;
pub mod link;
pub mod message;
