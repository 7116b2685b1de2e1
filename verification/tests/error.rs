use midi::{EndOfInput, MidiError};

#[test]
fn invalid_status_message_names_the_byte_in_decimal() {
    let err: MidiError<EndOfInput> = MidiError::InvalidStatus(0x7F);
    assert_eq!(err.message(), Some("Invalid Midi status: 127".to_string()));
    let err: MidiError<EndOfInput> = MidiError::InvalidStatus(0);
    assert_eq!(err.message(), Some("Invalid Midi status: 0".to_string()));
    let err: MidiError<EndOfInput> = MidiError::InvalidStatus(61);
    assert_eq!(err.message(), Some("Invalid Midi status: 61".to_string()));
}

#[test]
fn invalid_status_message_for_every_byte() {
    for byte in 0..=255u8 {
        let err: MidiError<EndOfInput> = MidiError::InvalidStatus(byte);
        assert_eq!(err.message(), Some(format!("Invalid Midi status: {}", byte)));
    }
}

#[test]
fn other_error_message_gives_the_reason() {
    let err: MidiError<EndOfInput> = MidiError::OtherErr("Don't handle sysex yet");
    assert_eq!(err.message(), Some("Midi Error: Don't handle sysex yet".to_string()));
}

#[test]
fn io_error_has_no_message_of_its_own() {
    let err = MidiError::IoError(EndOfInput);
    assert_eq!(err.message(), None);
    assert_eq!(err.description(), None);
}

#[test]
fn descriptions_are_fixed_by_kind() {
    let err: MidiError<EndOfInput> = MidiError::InvalidStatus(3);
    assert_eq!(err.description(), Some("Midi data has invalid status byte"));
    let err: MidiError<EndOfInput> = MidiError::OtherErr("anything");
    assert_eq!(err.description(), Some("A general midi error has occured"));
}

#[test]
fn cause_is_the_error_of_the_source() {
    let err = MidiError::IoError(42u32);
    assert_eq!(err.cause(), Some(&42));
    let err: MidiError<u32> = MidiError::InvalidStatus(1);
    assert_eq!(err.cause(), None);
    let err: MidiError<u32> = MidiError::OtherErr("x");
    assert_eq!(err.cause(), None);
}
