use midi::{MidiMessage, Status};

fn bytes_of(msg: &MidiMessage) -> Vec<u8> {
    (0..msg.len()).map(|i| msg.data(i)).collect()
}

#[test]
fn note_on_example() {
    let msg = MidiMessage::note_on(60, 100, 0);
    assert_eq!(bytes_of(&msg), vec![0x90, 60, 100]);
    assert_eq!(msg.status(), Status::NoteOn);
    assert_eq!(msg.channel(), 1);
    assert_eq!(msg.data(1), 60);
    assert_eq!(msg.data(2), 100);
}

#[test]
fn program_change_example() {
    let msg = MidiMessage::program_change(5, 9);
    assert_eq!(bytes_of(&msg), vec![0xC9, 5]);
    assert_eq!(msg.status(), Status::ProgramChange);
    assert_eq!(msg.channel(), 10);
    assert_eq!(msg.data(1), 5);
}

#[test]
fn note_off_bytes() {
    let msg = MidiMessage::note_off(61, 0, 2);
    assert_eq!(bytes_of(&msg), vec![0x82, 61, 0]);
    assert_eq!(msg.status(), Status::NoteOff);
    assert_eq!(msg.channel(), 3);
}

#[test]
fn polyphonic_aftertouch_bytes() {
    let msg = MidiMessage::polyphonic_aftertouch(64, 90, 4);
    assert_eq!(bytes_of(&msg), vec![0xA4, 64, 90]);
    assert_eq!(msg.status(), Status::PolyphonicAftertouch);
    assert_eq!(msg.channel(), 5);
}

#[test]
fn control_change_bytes() {
    let msg = MidiMessage::control_change(7, 127, 15);
    assert_eq!(bytes_of(&msg), vec![0xBF, 7, 127]);
    assert_eq!(msg.status(), Status::ControlChange);
    assert_eq!(msg.channel(), 16);
}

#[test]
fn channel_aftertouch_bytes() {
    let msg = MidiMessage::channel_aftertouch(33, 1);
    assert_eq!(bytes_of(&msg), vec![0xD1, 33]);
    assert_eq!(msg.status(), Status::ChannelAftertouch);
    assert_eq!(msg.channel(), 2);
}

#[test]
fn pitch_bend_bytes() {
    let msg = MidiMessage::pitch_bend(0x00, 0x40, 8);
    assert_eq!(bytes_of(&msg), vec![0xE8, 0x00, 0x40]);
    assert_eq!(msg.status(), Status::PitchBend);
    assert_eq!(msg.channel(), 9);
}

#[test]
fn builders_keep_data_values_as_given() {
    let msg = MidiMessage::note_on(0, 127, 0);
    assert_eq!((msg.data(1), msg.data(2)), (0, 127));
    let msg = MidiMessage::note_on(200, 255, 0);
    assert_eq!((msg.data(1), msg.data(2)), (200, 255));
    assert_eq!(msg.status(), Status::NoteOn);
}

#[test]
fn channel_is_the_input_plus_one_for_every_builder() {
    for channel in 0..16u8 {
        let one_based = channel + 1;
        assert_eq!(MidiMessage::note_on(1, 2, channel).channel(), one_based);
        assert_eq!(MidiMessage::note_off(1, 2, channel).channel(), one_based);
        assert_eq!(MidiMessage::polyphonic_aftertouch(1, 2, channel).channel(), one_based);
        assert_eq!(MidiMessage::control_change(1, 2, channel).channel(), one_based);
        assert_eq!(MidiMessage::program_change(1, channel).channel(), one_based);
        assert_eq!(MidiMessage::channel_aftertouch(1, channel).channel(), one_based);
        assert_eq!(MidiMessage::pitch_bend(1, 2, channel).channel(), one_based);
    }
}

#[test]
fn channel_fifteen_is_reported_as_sixteen() {
    assert_eq!(MidiMessage::note_on(60, 100, 15).channel(), 16);
    assert_eq!(MidiMessage::program_change(5, 15).channel(), 16);
}

#[test]
fn status_does_not_depend_on_the_channel() {
    for channel in 0..16u8 {
        assert_eq!(MidiMessage::note_on(1, 2, channel).status(), Status::NoteOn);
        assert_eq!(MidiMessage::note_off(1, 2, channel).status(), Status::NoteOff);
        assert_eq!(
            MidiMessage::polyphonic_aftertouch(1, 2, channel).status(),
            Status::PolyphonicAftertouch
        );
        assert_eq!(MidiMessage::control_change(1, 2, channel).status(), Status::ControlChange);
        assert_eq!(MidiMessage::program_change(1, channel).status(), Status::ProgramChange);
        assert_eq!(
            MidiMessage::channel_aftertouch(1, channel).status(),
            Status::ChannelAftertouch
        );
        assert_eq!(MidiMessage::pitch_bend(1, 2, channel).status(), Status::PitchBend);
    }
}

#[test]
fn length_is_one_more_than_the_data_length_of_the_status() {
    assert_eq!(MidiMessage::note_on(1, 2, 0).len(), 3);
    assert_eq!(MidiMessage::note_off(1, 2, 0).len(), 3);
    assert_eq!(MidiMessage::polyphonic_aftertouch(1, 2, 0).len(), 3);
    assert_eq!(MidiMessage::control_change(1, 2, 0).len(), 3);
    assert_eq!(MidiMessage::program_change(1, 0).len(), 2);
    assert_eq!(MidiMessage::channel_aftertouch(1, 0).len(), 2);
    assert_eq!(MidiMessage::pitch_bend(1, 2, 0).len(), 3);
    for channel in 0..16u8 {
        let msg = MidiMessage::pitch_bend(1, 2, channel);
        assert_eq!(msg.len() as isize, 1 + msg.status().data_len());
    }
}

#[test]
fn from_bytes_keeps_the_bytes() {
    let msg = MidiMessage::from_bytes(vec![0x93, 60, 100]);
    assert_eq!(bytes_of(&msg), vec![0x93, 60, 100]);
    assert_eq!(msg.status(), Status::NoteOn);
    assert_eq!(msg.channel(), 4);
    assert_eq!(msg.data(0), 0x93);
}

#[test]
fn from_bytes_agrees_with_the_builders() {
    let built = MidiMessage::control_change(64, 127, 3);
    let made = MidiMessage::from_bytes(vec![0xB3, 64, 127]);
    assert_eq!(bytes_of(&built), bytes_of(&made));
    let built = MidiMessage::channel_aftertouch(17, 12);
    let made = MidiMessage::from_bytes(vec![0xDC, 17]);
    assert_eq!(bytes_of(&built), bytes_of(&made));
}

#[test]
fn data_zero_is_the_status_byte() {
    assert_eq!(MidiMessage::note_on(60, 100, 5).data(0), 0x95);
    assert_eq!(MidiMessage::pitch_bend(1, 2, 15).data(0), 0xEF);
}

#[test]
fn renders_a_message_with_two_data_bytes() {
    let msg = MidiMessage::note_on(60, 100, 0);
    assert_eq!(msg.to_string(), "Note On: [60,100]\tchannel: 1");
}

#[test]
fn renders_a_message_with_one_data_byte() {
    let msg = MidiMessage::program_change(5, 9);
    assert_eq!(msg.to_string(), "Program Change: [5]\tchannel: 10");
}

#[test]
fn renders_each_kind_under_its_name() {
    assert_eq!(MidiMessage::note_off(0, 0, 0).to_string(), "Note Off: [0,0]\tchannel: 1");
    assert_eq!(
        MidiMessage::polyphonic_aftertouch(9, 10, 1).to_string(),
        "Polyphonic Aftertouch: [9,10]\tchannel: 2"
    );
    assert_eq!(
        MidiMessage::control_change(99, 127, 15).to_string(),
        "Control Change: [99,127]\tchannel: 16"
    );
    assert_eq!(
        MidiMessage::channel_aftertouch(128, 8).to_string(),
        "Channel Aftertouch: [128]\tchannel: 9"
    );
    assert_eq!(MidiMessage::pitch_bend(255, 200, 9).to_string(), "Pitch Bend: [255,200]\tchannel: 10");
}

#[test]
fn renders_numbers_as_std_does() {
    for value in 0..=255u8 {
        let msg = MidiMessage::program_change(value, 0);
        assert_eq!(msg.to_string(), format!("Program Change: [{}]\tchannel: 1", value));
    }
}

#[test]
fn from_bytes_takes_system_messages() {
    let msg = MidiMessage::from_bytes(vec![0xF8]);
    assert_eq!(bytes_of(&msg), vec![0xF8]);
    assert_eq!(msg.status(), Status::TimingClock);
    assert_eq!(msg.len(), 1);
    let msg = MidiMessage::from_bytes(vec![0xF2, 1, 2]);
    assert_eq!(msg.status(), Status::SongPositionPointer);
    assert_eq!((msg.data(1), msg.data(2)), (1, 2));
    let msg = MidiMessage::from_bytes(vec![0xF3, 9]);
    assert_eq!(msg.status(), Status::SongSelect);
    assert_eq!(msg.len(), 2);
}

#[test]
fn renders_a_message_without_data() {
    let msg = MidiMessage::from_bytes(vec![0xF8]);
    assert_eq!(msg.to_string(), "Timing Clock: [no data]\tchannel: 9");
    assert!(msg.to_string().starts_with("Timing Clock: [no data]"));
    let msg = MidiMessage::from_bytes(vec![0xFF]);
    assert_eq!(msg.to_string(), "System Reset: [no data]\tchannel: 16");
    let msg = MidiMessage::from_bytes(vec![0xF6]);
    assert_eq!(msg.to_string(), "Tune Request: [no data]\tchannel: 7");
}

#[test]
fn renders_system_messages_with_data() {
    let msg = MidiMessage::from_bytes(vec![0xF3, 12]);
    assert_eq!(msg.to_string(), "Song Select: [12]\tchannel: 4");
    let msg = MidiMessage::from_bytes(vec![0xF2, 0, 64]);
    assert_eq!(msg.to_string(), "Song Position Pointer: [0,64]\tchannel: 3");
}

#[test]
fn channel_of_a_system_message_is_its_low_nibble_plus_one() {
    assert_eq!(MidiMessage::from_bytes(vec![0xF8]).channel(), 9);
    assert_eq!(MidiMessage::from_bytes(vec![0xFF]).channel(), 16);
    assert_eq!(MidiMessage::from_bytes(vec![0xF1, 0]).channel(), 2);
}
