//! A packet parser for Intel Processor Trace byte streams.
//!
//! The parser is a pull-based state machine over a borrowed byte buffer. Each
//! pull frames one packet, threads the previously seen target IP into packets
//! that compress their instruction pointer against it, and moves between the
//! three decoding states at packet stream boundaries.

pub mod bits;
pub mod codec;
pub mod dump;
pub mod model;
pub mod packets;
pub mod parser;
pub mod state;
pub mod stream;

pub use packets::{IPBytes, Packet, PacketKind, TargetIP};
pub use parser::{PacketParser, TraceParseError};
pub use state::PacketParserState;
