//! Client-side protocol layer for a length-prefixed, typed binary IPC
//! protocol spoken by a window manager over a local Unix domain socket.
//!
//! The crate covers three concerns:
//! - framing: encoding a (kind, payload) pair into the wire format and
//!   decoding a frame's header and payload back out of raw bytes;
//! - the response registry: the typed response shapes and the rules that
//!   decode a raw JSON payload into them, keyed by the request kind;
//! - dispatch: building request frames, decoding replies by the kind that
//!   was sent, and the idle/subscribed connection mode state machine.
//!
//! All I/O (socket discovery, reads and writes) lives outside this crate;
//! every function here works on plain values and byte buffers.

pub mod frame;
pub mod json;
pub mod types;
pub mod registry;
pub mod dispatch;
