//! The status classifier: which kind of message a status byte announces,
//! and how many data bytes follow it.
//!
//! A voice status is told by the high nibble of the byte; its low nibble
//! carries the channel. A system status has no channel and is told by the
//! whole byte.

use vstd::prelude::*;

verus! {

/// Selects the kind of a status byte: its high nibble.
pub const STATUS_MASK: u8 = 0xF0;

/// Selects the channel of a status byte: its low nibble.
pub const CHANNEL_MASK: u8 = 0x0F;

/// Data length of a kind whose messages carry their own length. No kind has
/// it today; the value is set aside for them.
pub const VARIABLE_LENGTH: isize = -1;

/// Data length of a system exclusive message: it runs until a `SysExEnd`.
pub const SYSEX_LENGTH: isize = -2;

/// Data length reported for a byte that announces no kind of message.
pub const INVALID_LENGTH: isize = -3;

/// The status field of a midi message indicates what midi command it
/// represents and what channel it is on.
#[derive(Debug, Clone, Copy, PartialEq, Eq, Structural)]
pub enum Status {
    // voice
    NoteOff,
    NoteOn,
    PolyphonicAftertouch,
    ControlChange,
    ProgramChange,
    ChannelAftertouch,
    PitchBend,
    // system
    SysExStart,
    MIDITimeCodeQtrFrame,
    SongPositionPointer,
    SongSelect,
    TuneRequest,
    SysExEnd,
    TimingClock,
    Start,
    Continue,
    Stop,
    ActiveSensing,
    SystemReset,
}

impl Status {
    /// The code of this status on the wire. The codes 0xF4, 0xF5, 0xF9 and
    /// 0xFD are reserved and belong to no status.
    pub open spec fn spec_to_u8(self) -> u8 {
        match self {
            Status::NoteOff => 0x80,
            Status::NoteOn => 0x90,
            Status::PolyphonicAftertouch => 0xA0,
            Status::ControlChange => 0xB0,
            Status::ProgramChange => 0xC0,
            Status::ChannelAftertouch => 0xD0,
            Status::PitchBend => 0xE0,
            Status::SysExStart => 0xF0,
            Status::MIDITimeCodeQtrFrame => 0xF1,
            Status::SongPositionPointer => 0xF2,
            Status::SongSelect => 0xF3,
            Status::TuneRequest => 0xF6,
            Status::SysExEnd => 0xF7,
            Status::TimingClock => 0xF8,
            Status::Start => 0xFA,
            Status::Continue => 0xFB,
            Status::Stop => 0xFC,
            Status::ActiveSensing => 0xFE,
            Status::SystemReset => 0xFF,
        }
    }

    /// The status with the given code, if there is one.
    pub open spec fn spec_from_u8(code: u8) -> Option<Status> {
        if code == 0x80 {
            Some(Status::NoteOff)
        } else if code == 0x90 {
            Some(Status::NoteOn)
        } else if code == 0xA0 {
            Some(Status::PolyphonicAftertouch)
        } else if code == 0xB0 {
            Some(Status::ControlChange)
        } else if code == 0xC0 {
            Some(Status::ProgramChange)
        } else if code == 0xD0 {
            Some(Status::ChannelAftertouch)
        } else if code == 0xE0 {
            Some(Status::PitchBend)
        } else if code == 0xF0 {
            Some(Status::SysExStart)
        } else if code == 0xF1 {
            Some(Status::MIDITimeCodeQtrFrame)
        } else if code == 0xF2 {
            Some(Status::SongPositionPointer)
        } else if code == 0xF3 {
            Some(Status::SongSelect)
        } else if code == 0xF6 {
            Some(Status::TuneRequest)
        } else if code == 0xF7 {
            Some(Status::SysExEnd)
        } else if code == 0xF8 {
            Some(Status::TimingClock)
        } else if code == 0xFA {
            Some(Status::Start)
        } else if code == 0xFB {
            Some(Status::Continue)
        } else if code == 0xFC {
            Some(Status::Stop)
        } else if code == 0xFE {
            Some(Status::ActiveSensing)
        } else if code == 0xFF {
            Some(Status::SystemReset)
        } else {
            None
        }
    }

    /// The high nibble of a byte, its low nibble cleared: what is left of a
    /// status byte when the channel bits are masked off.
    pub open spec fn high_nibble(byte: u8) -> u8 {
        (byte - byte % 16) as u8
    }

    /// Whether `byte` is one of the system codes that are set aside and
    /// belong to no status.
    pub open spec fn reserved(byte: u8) -> bool {
        byte == 0xF4 || byte == 0xF5 || byte == 0xF9 || byte == 0xFD
    }

    /// The status that a status byte announces. Below 0xF0 it is the one
    /// whose code is the byte with its channel bits masked off; from 0xF0
    /// on, where no channel is carried, the one whose code is the byte.
    pub open spec fn spec_classify(byte: u8) -> Option<Status> {
        if byte >= 0xF0 {
            Self::spec_from_u8(byte)
        } else {
            Self::spec_from_u8(Self::high_nibble(byte))
        }
    }

    /// Whether this is a channel voice status, whose status byte carries a
    /// channel in its low nibble.
    pub open spec fn is_voice(self) -> bool {
        self.spec_to_u8() < 0xF0
    }

    /// The number of data bytes that follow a status byte of this kind, or
    /// `SYSEX_LENGTH` for the start of a system exclusive message.
    pub open spec fn spec_data_len(self) -> isize {
        match self {
            Status::NoteOff
            | Status::NoteOn
            | Status::PolyphonicAftertouch
            | Status::ControlChange
            | Status::PitchBend
            | Status::SongPositionPointer => 2,
            Status::SysExStart => SYSEX_LENGTH,
            Status::ProgramChange
            | Status::ChannelAftertouch
            | Status::MIDITimeCodeQtrFrame
            | Status::SongSelect => 1,
            Status::TuneRequest
            | Status::SysExEnd
            | Status::TimingClock
            | Status::Start
            | Status::Continue
            | Status::Stop
            | Status::ActiveSensing
            | Status::SystemReset => 0,
        }
    }

    /// The name of this status in words.
    pub open spec fn spec_name(self) -> Seq<char> {
        match self {
            Status::NoteOff => "Note Off"@,
            Status::NoteOn => "Note On"@,
            Status::PolyphonicAftertouch => "Polyphonic Aftertouch"@,
            Status::ControlChange => "Control Change"@,
            Status::ProgramChange => "Program Change"@,
            Status::ChannelAftertouch => "Channel Aftertouch"@,
            Status::PitchBend => "Pitch Bend"@,
            Status::SysExStart => "SysEx Start"@,
            Status::MIDITimeCodeQtrFrame => "MIDI Time Code Qtr Frame"@,
            Status::SongPositionPointer => "Song Position Pointer"@,
            Status::SongSelect => "Song Select"@,
            Status::TuneRequest => "Tune Request"@,
            Status::SysExEnd => "SysEx End"@,
            Status::TimingClock => "Timing Clock"@,
            Status::Start => "Start"@,
            Status::Continue => "Continue"@,
            Status::Stop => "Stop"@,
            Status::ActiveSensing => "Active Sensing"@,
            Status::SystemReset => "System Reset"@,
        }
    }

    /// The code of this status on the wire.
    #[verifier::when_used_as_spec(spec_to_u8)]
    pub fn to_u8(self) -> (code: u8)
        ensures
            code == self.spec_to_u8(),
            code >= 0x80,
            Self::spec_from_u8(code) == Some(self),
    {
        match self {
            Status::NoteOff => 0x80,
            Status::NoteOn => 0x90,
            Status::PolyphonicAftertouch => 0xA0,
            Status::ControlChange => 0xB0,
            Status::ProgramChange => 0xC0,
            Status::ChannelAftertouch => 0xD0,
            Status::PitchBend => 0xE0,
            Status::SysExStart => 0xF0,
            Status::MIDITimeCodeQtrFrame => 0xF1,
            Status::SongPositionPointer => 0xF2,
            Status::SongSelect => 0xF3,
            Status::TuneRequest => 0xF6,
            Status::SysExEnd => 0xF7,
            Status::TimingClock => 0xF8,
            Status::Start => 0xFA,
            Status::Continue => 0xFB,
            Status::Stop => 0xFC,
            Status::ActiveSensing => 0xFE,
            Status::SystemReset => 0xFF,
        }
    }

    /// The status with exactly the given code, `None` if no status has it.
    #[verifier::when_used_as_spec(spec_from_u8)]
    pub fn from_u8(code: u8) -> (status: Option<Status>)
        ensures
            status == Self::spec_from_u8(code),
            status matches Some(s) ==> s.spec_to_u8() == code,
            status is None ==> forall|s: Status| s.spec_to_u8() != code,
    {
        match code {
            0x80 => Some(Status::NoteOff),
            0x90 => Some(Status::NoteOn),
            0xA0 => Some(Status::PolyphonicAftertouch),
            0xB0 => Some(Status::ControlChange),
            0xC0 => Some(Status::ProgramChange),
            0xD0 => Some(Status::ChannelAftertouch),
            0xE0 => Some(Status::PitchBend),
            0xF0 => Some(Status::SysExStart),
            0xF1 => Some(Status::MIDITimeCodeQtrFrame),
            0xF2 => Some(Status::SongPositionPointer),
            0xF3 => Some(Status::SongSelect),
            0xF6 => Some(Status::TuneRequest),
            0xF7 => Some(Status::SysExEnd),
            0xF8 => Some(Status::TimingClock),
            0xFA => Some(Status::Start),
            0xFB => Some(Status::Continue),
            0xFC => Some(Status::Stop),
            0xFE => Some(Status::ActiveSensing),
            0xFF => Some(Status::SystemReset),
            _ => None,
        }
    }

    /// Classifies a status byte.
    ///
    /// Bytes below 0x80 announce nothing. Bytes from 0x80 to 0xEF announce
    /// the voice status of their high nibble; the low nibble holds the
    /// channel and plays no part. Bytes from 0xF0 on announce the system
    /// status of that very code, and nothing where the code is reserved:
    /// 0xF4, 0xF5, 0xF9 and 0xFD.
    #[verifier::when_used_as_spec(spec_classify)]
    pub fn classify(byte: u8) -> (status: Option<Status>)
        ensures
            status == Self::spec_classify(byte),
            status is None <==> byte < 0x80 || Self::reserved(byte),
            status == Some(Status::SysExStart) <==> byte == 0xF0,
            0x80 <= byte < 0xF0 ==> status is Some && status.unwrap().is_voice()
                && status.unwrap().spec_to_u8() == Self::high_nibble(byte)
                && status == Self::spec_from_u8(byte & STATUS_MASK),
            byte >= 0xF0 && !Self::reserved(byte) ==> status is Some && !status.unwrap().is_voice()
                && status.unwrap().spec_to_u8() == byte,
    {
        proof {
            Self::lemma_classify(byte);
        }
        if byte >= 0xF0 {
            Status::from_u8(byte)
        } else {
            Status::from_u8(byte & STATUS_MASK)
        }
    }

    /// The number of data bytes that follow a status byte of this kind:
    /// 0, 1 or 2, or `SYSEX_LENGTH` for the start of a system exclusive
    /// message, whose length no status byte tells.
    #[verifier::when_used_as_spec(spec_data_len)]
    pub fn data_len(self) -> (n: isize)
        ensures
            n == self.spec_data_len(),
            n == 0 || n == 1 || n == 2 || n == SYSEX_LENGTH,
            n == SYSEX_LENGTH <==> self == Status::SysExStart,
            self.is_voice() ==> n == 1 || n == 2,
    {
        match self {
            Status::NoteOff
            | Status::NoteOn
            | Status::PolyphonicAftertouch
            | Status::ControlChange
            | Status::PitchBend
            | Status::SongPositionPointer => 2,
            Status::SysExStart => SYSEX_LENGTH,
            Status::ProgramChange
            | Status::ChannelAftertouch
            | Status::MIDITimeCodeQtrFrame
            | Status::SongSelect => 1,
            Status::TuneRequest
            | Status::SysExEnd
            | Status::TimingClock
            | Status::Start
            | Status::Continue
            | Status::Stop
            | Status::ActiveSensing
            | Status::SystemReset => 0,
        }
    }

    /// The name of this status in words, as renderings show it.
    pub fn name(self) -> (text: &'static str)
        ensures
            text@ == self.spec_name(),
    {
        match self {
            Status::NoteOff => "Note Off",
            Status::NoteOn => "Note On",
            Status::PolyphonicAftertouch => "Polyphonic Aftertouch",
            Status::ControlChange => "Control Change",
            Status::ProgramChange => "Program Change",
            Status::ChannelAftertouch => "Channel Aftertouch",
            Status::PitchBend => "Pitch Bend",
            Status::SysExStart => "SysEx Start",
            Status::MIDITimeCodeQtrFrame => "MIDI Time Code Qtr Frame",
            Status::SongPositionPointer => "Song Position Pointer",
            Status::SongSelect => "Song Select",
            Status::TuneRequest => "Tune Request",
            Status::SysExEnd => "SysEx End",
            Status::TimingClock => "Timing Clock",
            Status::Start => "Start",
            Status::Continue => "Continue",
            Status::Stop => "Stop",
            Status::ActiveSensing => "Active Sensing",
            Status::SystemReset => "System Reset",
        }
    }

    /// `from_u8` and `to_u8` are inverse to each other: every status is found
    /// again from its code, and a code that yields a status is the code of
    /// that status.
    pub proof fn lemma_code_round_trip(status: Status, code: u8)
        ensures
            Self::spec_from_u8(status.spec_to_u8()) == Some(status),
            Self::spec_from_u8(code) == Some(status) ==> status.spec_to_u8() == code,
    {
    }

    /// How the classifier divides the 256 status bytes. Bytes below 0x80
    /// announce nothing. From 0x80 to 0xEF the high nibble, which is what
    /// the status mask leaves of the byte, tells one of the seven voice
    /// statuses. From 0xF0 on the byte is the code of a system status, or
    /// one of the four reserved codes; only 0xF0 is `SysExStart`.
    pub proof fn lemma_classify(byte: u8)
        ensures
            Self::high_nibble(byte) == byte & STATUS_MASK,
            byte < 0x80 || Self::reserved(byte) <==> Self::spec_classify(byte) is None,
            byte == 0xF0 <==> Self::spec_classify(byte) == Some(Status::SysExStart),
            0x80 <= byte < 0xF0 ==> Self::spec_classify(byte) is Some
                && Self::spec_classify(byte).unwrap().is_voice()
                && Self::spec_classify(byte).unwrap().spec_to_u8() == Self::high_nibble(byte)
                && Self::spec_classify(byte) == Self::spec_classify(Self::high_nibble(byte)),
            byte >= 0xF0 && !Self::reserved(byte) ==> Self::spec_classify(byte) is Some
                && !Self::spec_classify(byte).unwrap().is_voice()
                && Self::spec_classify(byte).unwrap().spec_to_u8() == byte,
    {
        let nibble = byte & STATUS_MASK;
        assert(nibble == byte - byte % 16) by (bit_vector)
            requires
                nibble == byte & 0xF0,
        ;
        assert(nibble == 0x00 || nibble == 0x10 || nibble == 0x20 || nibble == 0x30 || nibble
            == 0x40 || nibble == 0x50 || nibble == 0x60 || nibble == 0x70 || nibble == 0x80
            || nibble == 0x90 || nibble == 0xA0 || nibble == 0xB0 || nibble == 0xC0 || nibble
            == 0xD0 || nibble == 0xE0 || nibble == 0xF0) by (bit_vector)
            requires
                nibble == byte & 0xF0,
        ;
        assert(nibble <= byte < nibble + 0x10) by (bit_vector)
            requires
                nibble == byte & 0xF0,
        ;
        assert(nibble % 16 == 0);
    }
}

} // verus!
