//! Encoding and decoding of MIDI channel-voice and system messages.
//!
//! A message is a status byte followed by the data bytes that its status
//! asks for. `Status` classifies status bytes, `MidiMessage` builds messages
//! and decodes them from a `BufferSource`, and `MidiError` says why a decoding
//! failed.

pub mod decode;
pub mod error;
pub mod laws;
pub mod message;
pub mod source;
pub mod status;
pub mod text;

pub use crate::decode::{Partial, Step};
pub use crate::error::MidiError;
pub use crate::message::MidiMessage;
pub use crate::source::{BufferSource, EndOfInput};
pub use crate::status::Status;
