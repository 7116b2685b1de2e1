//! Midi messages: the bytes of one message, how they are built and how they
//! are taken from a byte source.

use crate::laws::lemma_data_bytes_table;
use crate::status::{Status, CHANNEL_MASK, INVALID_LENGTH, SYSEX_LENGTH};
use crate::text::{append_decimal, decimal};
use vstd::prelude::*;

verus! {

/// Midi message building and parsing. See
/// http://www.midi.org/techspecs/midimessages.php for a description
/// of the various Midi messages that exist.
///
/// A message is its bytes as they travel: the status byte, then the data
/// bytes that its status asks for, no more and no fewer. That makes one to
/// three bytes: a voice message has one or two data bytes, a system message
/// none, one or two.
#[derive(Debug)]
pub struct MidiMessage {
    data: Vec<u8>,
}

impl View for MidiMessage {
    type V = Seq<u8>;

    /// The bytes of the message, status byte first.
    closed spec fn view(&self) -> Seq<u8> {
        self.data@
    }
}

impl MidiMessage {
    /// The number of data bytes that follow the status byte `status`, or
    /// `SYSEX_LENGTH` where it starts a system exclusive message, or
    /// `INVALID_LENGTH` where it announces nothing.
    pub open spec fn spec_data_bytes(status: u8) -> isize {
        match Status::spec_classify(status) {
            Some(stat) => stat.spec_data_len(),
            None => INVALID_LENGTH,
        }
    }

    /// The status byte of a message of kind `status` on channel `channel`.
    pub open spec fn spec_make_status(status: Status, channel: u8) -> u8 {
        status.spec_to_u8() | channel
    }

    /// Whether `bytes` are one complete message: a status byte that
    /// announces a kind of known length, followed by exactly as many data
    /// bytes as that kind has.
    pub open spec fn well_formed(bytes: Seq<u8>) -> bool {
        &&& bytes.len() > 0
        &&& Self::spec_data_bytes(bytes[0]) >= 0
        &&& bytes.len() == 1 + Self::spec_data_bytes(bytes[0])
    }

    #[verifier::type_invariant]
    spec fn inv(&self) -> bool {
        Self::well_formed(self.data@)
    }

    /// The status that the first byte announces.
    pub open spec fn spec_status(&self) -> Status {
        Status::spec_classify(self@[0]).unwrap()
    }

    /// The low nibble of the status byte, plus one: for a voice message its
    /// channel, counted from 1.
    pub open spec fn spec_channel(&self) -> u8 {
        (self@[0] % 16 + 1) as u8
    }

    /// Return the status (type) of this message. It is read off the first
    /// byte each time, and is never `SysExStart`, whose messages have no
    /// known length.
    #[verifier::when_used_as_spec(spec_status)]
    pub fn status(&self) -> (status: Status)
        ensures
            status == self.spec_status(),
            Status::spec_classify(self@[0]) == Some(status),
            status != Status::SysExStart,
            status.is_voice() <==> self@[0] < 0xF0,
            status.spec_to_u8() == if self@[0] < 0xF0 {
                Status::high_nibble(self@[0])
            } else {
                self@[0]
            },
            self@.len() == 1 + status.spec_data_len(),
    {
        proof {
            use_type_invariant(self);
            Status::lemma_classify(self@[0]);
        }
        Status::classify(self.data[0]).unwrap()
    }

    /// Return the channel this message is on, counted from 1: the low
    /// nibble of the status byte, plus one.
    ///
    /// A system message is on no channel. For it the low nibble is part of
    /// the status code, and the value returned, still that nibble plus one,
    /// names nothing: ask `status()` first.
    #[verifier::when_used_as_spec(spec_channel)]
    pub fn channel(&self) -> (channel: u8)
        ensures
            channel == self.spec_channel(),
            channel == (self@[0] & CHANNEL_MASK) + 1,
            1 <= channel <= 16,
    {
        proof {
            use_type_invariant(self);
        }
        let first = self.data[0];
        let low = first & CHANNEL_MASK;
        assert(low == first % 16) by (bit_vector)
            requires
                low == first & 0x0F,
        ;
        low + 1
    }

    /// Get the data at index `index` from this message. Status is at
    /// index 0.
    pub fn data(&self, index: usize) -> (byte: u8)
        requires
            index < self@.len(),
        ensures
            byte == self@[index as int],
    {
        self.data[index]
    }

    /// The number of bytes of this message, the status byte included.
    pub fn len(&self) -> (n: usize)
        ensures
            n == self@.len(),
            1 <= n <= 3,
            self@[0] < 0xF0 ==> n >= 2,
            Self::well_formed(self@),
    {
        proof {
            use_type_invariant(self);
            Status::lemma_classify(self@[0]);
        }
        self.data.len()
    }

    /// Or in the channel bits to a status. For a voice status and a channel
    /// from 0 to 15 the byte announces that status and carries that channel.
    #[verifier::when_used_as_spec(spec_make_status)]
    pub fn make_status(status: Status, channel: u8) -> (byte: u8)
        ensures
            byte == Self::spec_make_status(status, channel),
            status.is_voice() && channel <= 15 ==> {
                &&& byte == status.spec_to_u8() + channel
                &&& Status::spec_classify(byte) == Some(status)
                &&& byte & CHANNEL_MASK == channel
            },
    {
        proof {
            if status.is_voice() && channel <= 15 {
                Self::lemma_status_byte(status, channel);
            }
        }
        status.to_u8() | channel
    }

    /// Create a midi message from a vector of bytes, which must be one
    /// complete message.
    pub fn from_bytes(bytes: Vec<u8>) -> (msg: MidiMessage)
        requires
            Self::well_formed(bytes@),
        ensures
            msg@ == bytes@,
    {
        MidiMessage { data: bytes }
    }

    /// Return the number of data bytes for a message with the given status:
    /// 0, 1 or 2 as the table of its status has it, whatever the channel of
    /// a voice status; `SYSEX_LENGTH` for 0xF0 alone; `INVALID_LENGTH` for
    /// every byte below 0x80 and for the reserved codes.
    #[verifier::when_used_as_spec(spec_data_bytes)]
    pub fn data_bytes(status: u8) -> (n: isize)
        ensures
            n == Self::spec_data_bytes(status),
            n == 0 || n == 1 || n == 2 || n == SYSEX_LENGTH || n == INVALID_LENGTH,
            n == INVALID_LENGTH <==> status < 0x80 || Status::reserved(status),
            n == SYSEX_LENGTH <==> status == 0xF0,
            n == 0 <==> status == 0xF6 || status == 0xF7 || status == 0xF8 || status == 0xFA
                || status == 0xFB || status == 0xFC || status == 0xFE || status == 0xFF,
            n == 1 <==> 0xC0 <= status < 0xE0 || status == 0xF1 || status == 0xF3,
            n == 2 <==> 0x80 <= status < 0xC0 || 0xE0 <= status < 0xF0 || status == 0xF2,
    {
        proof {
            lemma_data_bytes_table(status);
        }
        match Status::classify(status) {
            Some(stat) => stat.data_len(),
            None => INVALID_LENGTH,
        }
    }

    /// Create a note on message.
    pub fn note_on(note: u8, velocity: u8, channel: u8) -> (msg: MidiMessage)
        requires
            channel <= 15,
        ensures
            msg@ == seq![Self::spec_make_status(Status::NoteOn, channel), note, velocity],
            msg@[0] == Status::NoteOn.spec_to_u8() + channel,
            Self::well_formed(msg@),
            msg.spec_status() == Status::NoteOn,
            msg.spec_channel() == channel + 1,
    {
        MidiMessage { data: vec![Self::make_status(Status::NoteOn, channel), note, velocity] }
    }

    /// Create a note off message.
    pub fn note_off(note: u8, velocity: u8, channel: u8) -> (msg: MidiMessage)
        requires
            channel <= 15,
        ensures
            msg@ == seq![Self::spec_make_status(Status::NoteOff, channel), note, velocity],
            msg@[0] == Status::NoteOff.spec_to_u8() + channel,
            Self::well_formed(msg@),
            msg.spec_status() == Status::NoteOff,
            msg.spec_channel() == channel + 1,
    {
        MidiMessage { data: vec![Self::make_status(Status::NoteOff, channel), note, velocity] }
    }

    /// Create a polyphonic aftertouch message.
    /// This message is most often sent by pressing down on the key after it "bottoms out".
    pub fn polyphonic_aftertouch(note: u8, pressure: u8, channel: u8) -> (msg: MidiMessage)
        requires
            channel <= 15,
        ensures
            msg@ == seq![Self::spec_make_status(Status::PolyphonicAftertouch, channel), note, pressure],
            msg@[0] == Status::PolyphonicAftertouch.spec_to_u8() + channel,
            Self::well_formed(msg@),
            msg.spec_status() == Status::PolyphonicAftertouch,
            msg.spec_channel() == channel + 1,
    {
        MidiMessage { data: vec![Self::make_status(Status::PolyphonicAftertouch, channel), note, pressure] }
    }

    /// Create a control change message.
    /// This message is sent when a controller value changes. Controllers include devices such as
    /// pedals and levers. Controller numbers 120-127 are reserved as "Channel Mode Messages".
    pub fn control_change(controler: u8, data: u8, channel: u8) -> (msg: MidiMessage)
        requires
            channel <= 15,
        ensures
            msg@ == seq![Self::spec_make_status(Status::ControlChange, channel), controler, data],
            msg@[0] == Status::ControlChange.spec_to_u8() + channel,
            Self::well_formed(msg@),
            msg.spec_status() == Status::ControlChange,
            msg.spec_channel() == channel + 1,
    {
        MidiMessage { data: vec![Self::make_status(Status::ControlChange, channel), controler, data] }
    }

    /// Create a program change message.
    /// This message sent when the patch number changes. `program` is the new program number.
    pub fn program_change(program: u8, channel: u8) -> (msg: MidiMessage)
        requires
            channel <= 15,
        ensures
            msg@ == seq![Self::spec_make_status(Status::ProgramChange, channel), program],
            msg@[0] == Status::ProgramChange.spec_to_u8() + channel,
            Self::well_formed(msg@),
            msg.spec_status() == Status::ProgramChange,
            msg.spec_channel() == channel + 1,
    {
        MidiMessage { data: vec![Self::make_status(Status::ProgramChange, channel), program] }
    }

    /// Create a channel aftertouch.
    /// This message is most often sent by pressing down on the key after it "bottoms out". This message
    /// is different from polyphonic after-touch. Use this message to send the single greatest pressure
    /// value (of all the current depressed keys). `pressure` is the pressure value.
    pub fn channel_aftertouch(pressure: u8, channel: u8) -> (msg: MidiMessage)
        requires
            channel <= 15,
        ensures
            msg@ == seq![Self::spec_make_status(Status::ChannelAftertouch, channel), pressure],
            msg@[0] == Status::ChannelAftertouch.spec_to_u8() + channel,
            Self::well_formed(msg@),
            msg.spec_status() == Status::ChannelAftertouch,
            msg.spec_channel() == channel + 1,
    {
        MidiMessage { data: vec![Self::make_status(Status::ChannelAftertouch, channel), pressure] }
    }

    /// Create a pitch bend message.
    /// This message is sent to indicate a change in the pitch bender (wheel or lever, typically).
    /// The pitch bender is measured by a fourteen bit value. Center (no pitch change) is 2000H.
    /// Sensitivity is a function of the transmitter. `lsb` are the least significant 7 bits.
    /// `msb` are the most significant 7 bits.
    pub fn pitch_bend(lsb: u8, msb: u8, channel: u8) -> (msg: MidiMessage)
        requires
            channel <= 15,
        ensures
            msg@ == seq![Self::spec_make_status(Status::PitchBend, channel), lsb, msb],
            msg@[0] == Status::PitchBend.spec_to_u8() + channel,
            Self::well_formed(msg@),
            msg.spec_status() == Status::PitchBend,
            msg.spec_channel() == channel + 1,
    {
        MidiMessage { data: vec![Self::make_status(Status::PitchBend, channel), lsb, msb] }
    }

    /// The message in words: the name of its status, its data bytes in
    /// decimal between square brackets, or `no data` there where it has
    /// none, and the low nibble of its status byte plus one as its channel.
    pub open spec fn spec_to_string(&self) -> Seq<char> {
        let name = self.spec_status().spec_name();
        let channel = decimal(self.spec_channel() as nat);
        if self@.len() == 2 {
            name + ": ["@ + decimal(self@[1] as nat) + "]\tchannel: "@ + channel
        } else if self@.len() == 3 {
            name + ": ["@ + decimal(self@[1] as nat) + ","@ + decimal(self@[2] as nat)
                + "]\tchannel: "@ + channel
        } else {
            name + ": [no data]\tchannel: "@ + channel
        }
    }

    /// The message in words, such as `Note On: [60,100]` or
    /// `Timing Clock: [no data]`, followed by a tab and `channel: ` with the
    /// number that `channel()` gives.
    pub fn to_string(&self) -> (text: String)
        ensures
            text@ == self.spec_to_string(),
    {
        let mut out = String::from_str(self.status().name());
        if self.data.len() == 2 {
            out.append(": [");
            append_decimal(&mut out, self.data[1]);
            out.append("]\tchannel: ");
        } else if self.data.len() == 3 {
            out.append(": [");
            append_decimal(&mut out, self.data[1]);
            out.append(",");
            append_decimal(&mut out, self.data[2]);
            out.append("]\tchannel: ");
        } else {
            out.append(": [no data]\tchannel: ");
        }
        append_decimal(&mut out, self.channel());
        assert(out@ =~= self.spec_to_string());
        out
    }

    /// The packing of status and channel into one byte loses neither, for
    /// the statuses that have a channel and the channels from 0 to 15.
    pub proof fn lemma_status_byte(status: Status, channel: u8)
        requires
            status.is_voice(),
            channel <= 15,
        ensures
            Self::spec_make_status(status, channel) == status.spec_to_u8() + channel,
            Status::spec_classify(Self::spec_make_status(status, channel)) == Some(status),
            Self::spec_make_status(status, channel) & CHANNEL_MASK == channel,
            Self::spec_data_bytes(Self::spec_make_status(status, channel))
                == status.spec_data_len(),
    {
        let code = status.spec_to_u8();
        assert((code | channel) & 0xF0 == code && (code | channel) & 0x0F == channel && (code
            | channel) == code + channel) by (bit_vector)
            requires
                code == 0x80 || code == 0x90 || code == 0xA0 || code == 0xB0 || code == 0xC0
                    || code == 0xD0 || code == 0xE0,
                channel <= 15,
        ;
    }
}

} // verus!
