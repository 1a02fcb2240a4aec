use gamepad::io::audio::{AudioAction, NamedPitch, Note, Pitch, Tune, TUNE_NOTE_MS};

#[test]
fn connect_tune_rises() {
    assert_eq!(
        Tune::Connect.notes(),
        vec![Note(Pitch::Named(NamedPitch::C4), 200), Note(Pitch::Named(NamedPitch::G4), 200)]
    );
}

#[test]
fn disconnect_tune_falls() {
    assert_eq!(
        Tune::Disconnect.notes(),
        vec![Note(Pitch::Named(NamedPitch::G4), 200), Note(Pitch::Named(NamedPitch::C4), 200)]
    );
}

#[test]
fn disconnect_is_connect_reversed() {
    let mut connect = Tune::Connect.notes();
    connect.reverse();
    assert_eq!(connect, Tune::Disconnect.notes());
}

#[test]
fn single_note_is_played_as_is() {
    let note = Note(Pitch::Frequency(440), 75);
    assert_eq!(AudioAction::PlayNote(note).notes(), vec![note]);
    let silence = Note(Pitch::Silent, 10);
    assert_eq!(AudioAction::PlayNote(silence).notes(), vec![silence]);
}

#[test]
fn tune_request_plays_the_tune() {
    assert_eq!(AudioAction::PlayTune(Tune::Connect).notes(), Tune::Connect.notes());
    assert_eq!(AudioAction::PlayTune(Tune::Disconnect).notes(), Tune::Disconnect.notes());
    assert_eq!(TUNE_NOTE_MS, 200);
}
