//! The decoder: from a status byte and the bytes that follow it to a
//! message.
//!
//! Decoding keeps nothing between messages. It takes the status byte, asks
//! the classifier how many data bytes that status has, and takes exactly
//! that many. A message comes out whole or not at all.
//!
//! The decoder comes in two forms over the same steps. `MidiMessage::begin`
//! and `Partial::feed` decide, one byte at a time, what happens next, and
//! leave the reading to the caller: a caller that reads from a device runs
//! them in a loop of its own and feeds them what each read gave. The
//! functions `next_message_given_status` and `next_message` are that loop
//! for a `BufferSource`.

use crate::error::MidiError;
use crate::message::MidiMessage;
use crate::source::{BufferSource, EndOfInput};
use crate::status::{Status, INVALID_LENGTH, SYSEX_LENGTH, VARIABLE_LENGTH};
use vstd::prelude::*;

verus! {

/// A message under way: its status byte and the data bytes taken so far,
/// at least one short of what its status asks for.
#[derive(Debug)]
pub struct Partial {
    bytes: Vec<u8>,
}

impl View for Partial {
    type V = Seq<u8>;

    /// The bytes taken so far, status byte first.
    closed spec fn view(&self) -> Seq<u8> {
        self.bytes@
    }
}

/// Where the decoding of one message stands.
#[derive(Debug)]
pub enum Step<E> {
    /// One more byte is to be read and fed to the message under way.
    Read(Partial),
    /// The message is complete.
    Done(MidiMessage),
    /// The decoding has failed; nothing more is to be read for it.
    Failed(MidiError<E>),
}

impl Partial {
    /// Whether `bytes` are the beginning of a message that lacks data bytes
    /// still: a status byte that announces a kind of known length, and
    /// fewer data bytes than that kind has.
    pub open spec fn incomplete(bytes: Seq<u8>) -> bool {
        &&& bytes.len() > 0
        &&& MidiMessage::spec_data_bytes(bytes[0]) >= 0
        &&& bytes.len() < 1 + MidiMessage::spec_data_bytes(bytes[0])
    }

    #[verifier::type_invariant]
    spec fn inv(&self) -> bool {
        Self::incomplete(self.bytes@)
    }

    /// Takes on what a read gave. A byte is added to the message, which is
    /// then complete or waits for the next byte. A failed read ends the
    /// decoding with the error of the read, kept as it came.
    pub fn feed<E>(self, read: Result<u8, E>) -> (step: Step<E>)
        ensures
            Self::incomplete(self@),
            match read {
                Ok(byte) => if MidiMessage::well_formed(self@.push(byte)) {
                    step matches Step::Done(msg) && msg@ == self@.push(byte)
                } else {
                    step matches Step::Read(partial) && partial@ == self@.push(byte)
                },
                Err(e) => step == Step::Failed(MidiError::IoError(e)),
            },
    {
        proof {
            use_type_invariant(&self);
        }
        match read {
            Ok(byte) => {
                let mut bytes = self.bytes;
                bytes.push(byte);
                let n = MidiMessage::data_bytes(bytes[0]);
                if bytes.len() as isize - 1 < n {
                    Step::Read(Partial { bytes })
                } else {
                    Step::Done(MidiMessage::from_bytes(bytes))
                }
            },
            Err(e) => Step::Failed(MidiError::IoError(e)),
        }
    }
}

impl MidiMessage {
    /// What decoding yields for the status byte `stat` when `pending` are
    /// the bytes that the source has after it: the bytes of the message, or
    /// the error.
    pub open spec fn spec_decode(stat: u8, pending: Seq<u8>) -> Result<
        Seq<u8>,
        MidiError<EndOfInput>,
    > {
        let n = Self::spec_data_bytes(stat);
        if n == INVALID_LENGTH {
            Err(MidiError::InvalidStatus(stat))
        } else if n == SYSEX_LENGTH {
            Err(MidiError::OtherErr("Don't handle sysex yet"))
        } else if n == VARIABLE_LENGTH {
            Err(MidiError::OtherErr("Don't handle variable sized yet"))
        } else if pending.len() < n {
            Err(MidiError::IoError(EndOfInput))
        } else {
            Ok(seq![stat] + pending.take(n as int))
        }
    }

    /// What decoding yields when the status byte is still to be read: the
    /// first pending byte is the status, the rest follows it.
    pub open spec fn spec_decode_next(pending: Seq<u8>) -> Result<Seq<u8>, MidiError<EndOfInput>> {
        if pending.len() == 0 {
            Err(MidiError::IoError(EndOfInput))
        } else {
            Self::spec_decode(pending[0], pending.skip(1))
        }
    }

    /// Begins the decoding of the message that the status byte `stat`
    /// announces, before anything is read for it.
    ///
    /// A status byte that announces nothing, one below 0x80 or a reserved
    /// system code, fails with `InvalidStatus`. The byte 0xF0 fails with
    /// `OtherErr`: system exclusive messages are not taken on. A status
    /// without data bytes is a complete message at once. For any other the
    /// first data byte is to be read.
    pub fn begin<E>(stat: u8) -> (step: Step<E>)
        ensures
            Self::spec_data_bytes(stat) == INVALID_LENGTH <==> step == Step::<E>::Failed(
                MidiError::InvalidStatus(stat),
            ),
            stat < 0x80 || Status::reserved(stat) <==> step == Step::<E>::Failed(
                MidiError::InvalidStatus(stat),
            ),
            stat == 0xF0 <==> step == Step::<E>::Failed(
                MidiError::OtherErr("Don't handle sysex yet"),
            ),
            Self::spec_data_bytes(stat) == 0 <==> step is Done,
            Self::spec_data_bytes(stat) > 0 <==> step is Read,
            step matches Step::Done(msg) ==> msg@ == seq![stat],
            step matches Step::Read(partial) ==> partial@ == seq![stat],
    {
        let n = Self::data_bytes(stat);
        if n == VARIABLE_LENGTH {
            // No status has this length yet.
            Step::Failed(MidiError::OtherErr("Don't handle variable sized yet"))
        } else if n == SYSEX_LENGTH {
            Step::Failed(MidiError::OtherErr("Don't handle sysex yet"))
        } else if n < 0 {
            Step::Failed(MidiError::InvalidStatus(stat))
        } else {
            let mut bytes: Vec<u8> = Vec::with_capacity(3);
            bytes.push(stat);
            assert(bytes@ =~= seq![stat]);
            if n == 0 {
                Step::Done(MidiMessage::from_bytes(bytes))
            } else {
                Step::Read(Partial { bytes })
            }
        }
    }

    /// Get the next midi message from the reader given that the
    /// status `stat` has just been read.
    ///
    /// A status byte that announces nothing is refused with `InvalidStatus`,
    /// and the one that starts a system exclusive message with `OtherErr`;
    /// for both the reader is left untouched. Otherwise the data bytes that
    /// the status has are read, and no byte beyond them: none at all for a
    /// status without data bytes. If the reader runs out before they are all
    /// there, the decoding fails with `IoError` and the reader is used up.
    pub fn next_message_given_status(stat: u8, reader: &mut BufferSource) -> (r: Result<
        MidiMessage,
        MidiError<EndOfInput>,
    >)
        ensures
            match Self::spec_decode(stat, old(reader).pending()) {
                Ok(bytes) => {
                    &&& r matches Ok(msg)
                    &&& msg@ == bytes
                    &&& final(reader).pending() == old(reader).pending().skip(bytes.len() - 1)
                },
                Err(e) => {
                    &&& r == Err::<MidiMessage, MidiError<EndOfInput>>(e)
                    &&& if e is IoError {
                        final(reader).pending().len() == 0
                    } else {
                        *final(reader) == *old(reader)
                    }
                },
            },
            Self::spec_data_bytes(stat) == INVALID_LENGTH <==> r == Err::<
                MidiMessage,
                MidiError<EndOfInput>,
            >(MidiError::InvalidStatus(stat)),
            stat < 0x80 || Status::reserved(stat) <==> r == Err::<
                MidiMessage,
                MidiError<EndOfInput>,
            >(MidiError::InvalidStatus(stat)),
            stat == 0xF0 <==> r == Err::<MidiMessage, MidiError<EndOfInput>>(
                MidiError::OtherErr("Don't handle sysex yet"),
            ),
            old(reader).pending().len() < Self::spec_data_bytes(stat) <==> r == Err::<
                MidiMessage,
                MidiError<EndOfInput>,
            >(MidiError::IoError(EndOfInput)),
            0 <= Self::spec_data_bytes(stat) <= old(reader).pending().len() <==> r is Ok,
            Self::spec_data_bytes(stat) == 0 ==> {
                &&& r matches Ok(msg)
                &&& msg@ == seq![stat]
                &&& *final(reader) == *old(reader)
            },
    {
        let mut step: Step<EndOfInput> = Self::begin(stat);
        let ghost n = Self::spec_data_bytes(stat);
        let ghost mut taken: int = 0;
        proof {
            Status::lemma_classify(stat);
            assert(seq![stat] + old(reader).pending().take(0) =~= seq![stat]);
        }
        loop
            invariant
                n == Self::spec_data_bytes(stat),
                n == INVALID_LENGTH <==> stat < 0x80 || Status::reserved(stat),
                n == SYSEX_LENGTH <==> stat == 0xF0,
                n == INVALID_LENGTH || n == SYSEX_LENGTH || 0 <= n <= 2,
                0 <= taken,
                taken == 0 ==> *reader == *old(reader),
                taken <= old(reader).pending().len(),
                reader.pending() == old(reader).pending().skip(taken),
                match step {
                    Step::Read(partial) => {
                        &&& taken < n
                        &&& partial@ == seq![stat] + old(reader).pending().take(taken)
                    },
                    Step::Done(msg) => {
                        &&& taken == n
                        &&& msg@ == seq![stat] + old(reader).pending().take(taken)
                    },
                    Step::Failed(e) => {
                        &&& Self::spec_decode(stat, old(reader).pending()) == Err::<
                            Seq<u8>,
                            MidiError<EndOfInput>,
                        >(e)
                        &&& if e is IoError {
                            reader.pending().len() == 0
                        } else {
                            *reader == *old(reader)
                        }
                        &&& n == INVALID_LENGTH <==> e == MidiError::<EndOfInput>::InvalidStatus(
                            stat,
                        )
                        &&& n == SYSEX_LENGTH <==> e == MidiError::<EndOfInput>::OtherErr(
                            "Don't handle sysex yet",
                        )
                        &&& e is IoError ==> n > old(reader).pending().len()
                    },
                },
            decreases
                    (if step is Read {
                        1 + n - taken
                    } else {
                        0
                    }),
        {
            match step {
                Step::Read(partial) => {
                    let ghost before = reader.pending();
                    let ghost so_far = partial@;
                    let read = reader.read_byte();
                    step = partial.feed(read);
                    proof {
                        if read is Ok {
                            assert(before.skip(1) =~= old(reader).pending().skip(taken + 1));
                            assert(so_far.push(before[0]) =~= seq![stat] + old(
                                reader,
                            ).pending().take(taken + 1));
                            assert(so_far.push(before[0])[0] == stat);
                            taken = taken + 1;
                        }
                    }
                },
                Step::Done(msg) => {
                    return Ok(msg);
                },
                Step::Failed(e) => {
                    return Err(e);
                },
            }
        }
    }

    /// Extract next midi message from a reader: reads the status byte, then
    /// goes on as `next_message_given_status` does. After an `InvalidStatus`
    /// or an `OtherErr` the status byte is consumed, and nothing else.
    pub fn next_message(reader: &mut BufferSource) -> (r: Result<
        MidiMessage,
        MidiError<EndOfInput>,
    >)
        ensures
            match Self::spec_decode_next(old(reader).pending()) {
                Ok(bytes) => {
                    &&& r matches Ok(msg)
                    &&& msg@ == bytes
                    &&& final(reader).pending() == old(reader).pending().skip(bytes.len() as int)
                },
                Err(e) => {
                    &&& r == Err::<MidiMessage, MidiError<EndOfInput>>(e)
                    &&& if e is IoError {
                        final(reader).pending().len() == 0
                    } else {
                        final(reader).pending() == old(reader).pending().skip(1)
                    }
                },
            },
    {
        let stat = match reader.read_byte() {
            Ok(byte) => byte,
            Err(e) => return Err(MidiError::IoError(e)),
        };
        let r = MidiMessage::next_message_given_status(stat, reader);
        proof {
            if r is Ok {
                let k = r->Ok_0@.len();
                assert(old(reader).pending().skip(1).skip(k - 1) =~= old(reader).pending().skip(
                    k as int,
                ));
            }
        }
        r
    }
}

} // verus!
