//! What can go wrong while a message is decoded.

use crate::text::{append_decimal, decimal};
use vstd::prelude::*;

verus! {

/// An error that can occur trying to parse a midi message. `E` is the error
/// of the byte source that the message was read from.
#[derive(Debug, PartialEq, Eq)]
pub enum MidiError<E> {
    /// The status byte announces no kind of message.
    InvalidStatus(u8),
    /// The message is of a kind that the decoder does not take on; the text
    /// says which.
    OtherErr(&'static str),
    /// The byte source failed; its error is kept as it came.
    IoError(E),
}

impl<E> MidiError<E> {
    /// The failure of the byte source behind this error, where there is one.
    pub fn cause(&self) -> (cause: Option<&E>)
        ensures
            cause == match self {
                MidiError::IoError(e) => Some(e),
                _ => None::<&E>,
            },
    {
        match self {
            MidiError::IoError(e) => Some(e),
            _ => None,
        }
    }

    /// A fixed description of the kind of error. A failure of the byte
    /// source has none of its own: it is for `cause()` to describe.
    pub open spec fn spec_description(&self) -> Option<Seq<char>> {
        match self {
            MidiError::InvalidStatus(_) => Some("Midi data has invalid status byte"@),
            MidiError::OtherErr(_) => Some("A general midi error has occured"@),
            MidiError::IoError(_) => None,
        }
    }

    /// A fixed description of the kind of error, `None` for a failure of the
    /// byte source.
    pub fn description(&self) -> (text: Option<&'static str>)
        ensures
            text is Some <==> !(self is IoError),
            text matches Some(t) ==> Some(t@) == self.spec_description(),
    {
        match self {
            MidiError::InvalidStatus(_) => Some("Midi data has invalid status byte"),
            MidiError::OtherErr(_) => Some("A general midi error has occured"),
            MidiError::IoError(_) => None,
        }
    }

    /// The message of this error: the offending status byte in decimal, or
    /// the reason given. A failure of the byte source has none of its own.
    pub open spec fn spec_message(&self) -> Option<Seq<char>> {
        match self {
            MidiError::InvalidStatus(status) => Some(
                "Invalid Midi status: "@ + decimal(*status as nat),
            ),
            MidiError::OtherErr(reason) => Some("Midi Error: "@ + reason@),
            MidiError::IoError(_) => None,
        }
    }

    /// The message of this error, `None` for a failure of the byte source.
    pub fn message(&self) -> (text: Option<String>)
        ensures
            text is Some <==> !(self is IoError),
            text matches Some(t) ==> Some(t@) == self.spec_message(),
    {
        match self {
            MidiError::InvalidStatus(status) => {
                let mut out = String::from_str("Invalid Midi status: ");
                append_decimal(&mut out, *status);
                Some(out)
            },
            MidiError::OtherErr(reason) => {
                let mut out = String::from_str("Midi Error: ");
                out.append(reason);
                Some(out)
            },
            MidiError::IoError(_) => None,
        }
    }
}

} // verus!
