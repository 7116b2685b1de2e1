//! Laws of the codec: what holds of building and decoding together.
//!
//! They are stated over the byte sequences that the contracts of the
//! builders and of the decoder speak of, and proved once for all inputs.

use crate::error::MidiError;
use crate::message::MidiMessage;
use crate::source::EndOfInput;
use crate::status::{Status, CHANNEL_MASK, INVALID_LENGTH, STATUS_MASK, SYSEX_LENGTH};
use vstd::prelude::*;

verus! {

/// The number of data bytes of every status byte. Below 0xF0 it depends on
/// the high nibble alone: nibbles 0x0 to 0x7 are invalid; 0x8, 0x9, 0xA,
/// 0xB and 0xE have two data bytes; 0xC and 0xD have one. From 0xF0 on it
/// goes by the byte: 0xF0 starts a system exclusive message; 0xF1 and 0xF3
/// have one data byte, 0xF2 two; 0xF4, 0xF5, 0xF9 and 0xFD are invalid; the
/// other eight have none.
pub proof fn lemma_data_bytes_table(status: u8)
    ensures
        status < 0xF0 ==> MidiMessage::spec_data_bytes(status) == MidiMessage::spec_data_bytes(
            Status::high_nibble(status),
        ) && Status::high_nibble(status) == status & STATUS_MASK,
        MidiMessage::spec_data_bytes(status) == if status < 0x80 {
            INVALID_LENGTH
        } else if status < 0xC0 {
            2
        } else if status < 0xE0 {
            1
        } else if status < 0xF0 {
            2
        } else if status == 0xF0 {
            SYSEX_LENGTH
        } else if status == 0xF1 || status == 0xF3 {
            1
        } else if status == 0xF2 {
            2
        } else if Status::reserved(status) {
            INVALID_LENGTH
        } else {
            0
        },
{
    Status::lemma_classify(status);
    Status::lemma_classify(Status::high_nibble(status));
}

/// Every status has 0, 1 or 2 data bytes, but for `SysExStart`, whose
/// length no status byte tells; the voice statuses have 1 or 2.
pub proof fn lemma_data_len_range(status: Status)
    ensures
        status != Status::SysExStart ==> 0 <= status.spec_data_len() <= 2,
        status == Status::SysExStart <==> status.spec_data_len() == SYSEX_LENGTH,
        status.is_voice() ==> 1 <= status.spec_data_len() <= 2,
{
}

/// A message of a voice status on a channel from 0 to 15, with the data
/// bytes that the status asks for, is well formed; its status byte gives
/// back the status, and the channel counted from 1 is the channel plus one,
/// 16 for channel 15.
pub proof fn lemma_built_message(status: Status, channel: u8, data: Seq<u8>)
    requires
        status.is_voice(),
        channel <= 15,
        data.len() == status.spec_data_len(),
    ensures
        MidiMessage::well_formed(seq![MidiMessage::spec_make_status(status, channel)] + data),
        Status::spec_classify(MidiMessage::spec_make_status(status, channel)) == Some(status),
        (MidiMessage::spec_make_status(status, channel) & CHANNEL_MASK) + 1 == channel + 1,
{
    MidiMessage::lemma_status_byte(status, channel);
}

/// Round trip: decoding the bytes of a well-formed message, whatever
/// follows them in the source, yields exactly those bytes again, and with
/// them the same status, channel and data. So it is whether the status byte
/// is handed to the decoder or read by it.
pub proof fn lemma_round_trip(msg: Seq<u8>, rest: Seq<u8>)
    requires
        MidiMessage::well_formed(msg),
    ensures
        MidiMessage::spec_decode(msg[0], msg.skip(1) + rest) == Ok::<
            Seq<u8>,
            MidiError<EndOfInput>,
        >(msg),
        MidiMessage::spec_decode_next(msg + rest) == Ok::<Seq<u8>, MidiError<EndOfInput>>(msg),
{
    let n = MidiMessage::spec_data_bytes(msg[0]);
    let tail = msg.skip(1) + rest;
    assert(seq![msg[0]] + tail.take(n as int) =~= msg);
    assert((msg + rest).skip(1) =~= tail);
    assert((msg + rest)[0] == msg[0]);
}

/// What the decoder yields is a well-formed message: the status byte and
/// the first data bytes of the source, as many as the status has.
pub proof fn lemma_decoded_message(stat: u8, pending: Seq<u8>)
    ensures
        MidiMessage::spec_decode(stat, pending) matches Ok(msg) ==> {
            &&& MidiMessage::well_formed(msg)
            &&& msg[0] == stat
            &&& msg.skip(1) == pending.take(MidiMessage::spec_data_bytes(stat) as int)
        },
{
    Status::lemma_classify(stat);
    if let Ok(msg) = MidiMessage::spec_decode(stat, pending) {
        assert(msg.skip(1) =~= pending.take(MidiMessage::spec_data_bytes(stat) as int));
    }
}

/// A status byte that announces nothing, one below 0x80 or a reserved
/// system code: decoding fails with `InvalidStatus`, whatever the source
/// holds, and no other status byte fails so.
pub proof fn lemma_invalid_status(stat: u8, pending: Seq<u8>)
    ensures
        stat < 0x80 || Status::reserved(stat) <==> MidiMessage::spec_decode(stat, pending) == Err::<
            Seq<u8>,
            MidiError<EndOfInput>,
        >(MidiError::InvalidStatus(stat)),
{
    Status::lemma_classify(stat);
}

/// The status byte 0xF0 starts a system exclusive message: decoding fails
/// with `OtherErr`, whatever the source holds, and no other status byte
/// fails so.
pub proof fn lemma_sysex_refused(stat: u8, pending: Seq<u8>)
    ensures
        stat == 0xF0 <==> (MidiMessage::spec_decode(stat, pending) matches Err(e) && e is OtherErr),
        stat == 0xF0 ==> MidiMessage::spec_decode(stat, pending) == Err::<
            Seq<u8>,
            MidiError<EndOfInput>,
        >(MidiError::OtherErr("Don't handle sysex yet")),
{
    Status::lemma_classify(stat);
}

/// A status whose data bytes the source cannot all deliver: decoding fails
/// with the source's error, and never yields a shorter message. Decoding
/// fails with an `IoError` in no other case.
pub proof fn lemma_truncated(stat: u8, pending: Seq<u8>)
    ensures
        0 <= pending.len() < MidiMessage::spec_data_bytes(stat) <==> MidiMessage::spec_decode(
            stat,
            pending,
        ) == Err::<Seq<u8>, MidiError<EndOfInput>>(MidiError::IoError(EndOfInput)),
{
    Status::lemma_classify(stat);
}

/// A status without data bytes is a message by itself: decoding yields the
/// status byte alone, whatever the source holds, and takes nothing from it.
pub proof fn lemma_data_less(stat: u8, pending: Seq<u8>)
    ensures
        MidiMessage::spec_data_bytes(stat) == 0 <==> MidiMessage::spec_decode(stat, pending) == Ok::<
            Seq<u8>,
            MidiError<EndOfInput>,
        >(seq![stat]),
{
    Status::lemma_classify(stat);
    if MidiMessage::spec_data_bytes(stat) == 0 {
        assert(seq![stat] + pending.take(0) =~= seq![stat]);
    }
    if let Ok(msg) = MidiMessage::spec_decode(stat, pending) {
        assert(msg.len() == 1 + MidiMessage::spec_data_bytes(stat));
    }
}

} // verus!
