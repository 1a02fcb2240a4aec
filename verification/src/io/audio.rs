use vstd::prelude::*;

verus! {

/// The named pitches of the standard scale that the gamepad's tunes use.
#[derive(Clone, Copy, Debug, PartialEq, Eq, Structural)]
pub enum NamedPitch {
    C4,
    G4,
}

/// Any pitch the speaker can play.
#[derive(Clone, Copy, Debug, PartialEq, Eq, Structural)]
pub enum Pitch {
    Silent,
    Named(NamedPitch),
    /// A frequency in Hz.
    Frequency(u32),
}

/// A pitch and how long it sounds, in milliseconds.
#[derive(Clone, Copy, Debug, PartialEq, Eq, Structural)]
pub struct Note(pub Pitch, pub u32);

/// The tunes the gamepad plays.
#[derive(Clone, Copy, Debug, PartialEq, Eq, Structural)]
pub enum Tune {
    /// A central has connected.
    Connect,
    /// The central has gone away.
    Disconnect,
}

/// A request to the audio driver.
#[derive(Clone, Copy, Debug, PartialEq, Eq, Structural)]
pub enum AudioAction {
    PlayNote(Note),
    PlayTune(Tune),
}

/// How long each note of a tune sounds, in milliseconds.
pub const TUNE_NOTE_MS: u32 = 200;

/// The notes of a tune, in the order they are played: connecting rises from
/// C4 to G4, disconnecting falls from G4 to C4.
pub open spec fn tune_notes(tune: Tune) -> Seq<Note> {
    match tune {
        Tune::Connect => seq![
            Note(Pitch::Named(NamedPitch::C4), TUNE_NOTE_MS),
            Note(Pitch::Named(NamedPitch::G4), TUNE_NOTE_MS),
        ],
        Tune::Disconnect => seq![
            Note(Pitch::Named(NamedPitch::G4), TUNE_NOTE_MS),
            Note(Pitch::Named(NamedPitch::C4), TUNE_NOTE_MS),
        ],
    }
}

/// The notes the audio driver plays for a request.
pub open spec fn action_notes(action: AudioAction) -> Seq<Note> {
    match action {
        AudioAction::PlayNote(note) => seq![note],
        AudioAction::PlayTune(tune) => tune_notes(tune),
    }
}

impl Tune {
    /// The notes of the tune, in the order they are played.
    pub fn notes(&self) -> (notes: Vec<Note>)
        ensures
            notes@ == tune_notes(*self),
            *self == Tune::Connect ==> notes@ == seq![
                Note(Pitch::Named(NamedPitch::C4), TUNE_NOTE_MS),
                Note(Pitch::Named(NamedPitch::G4), TUNE_NOTE_MS),
            ],
            *self == Tune::Disconnect ==> notes@ == seq![
                Note(Pitch::Named(NamedPitch::G4), TUNE_NOTE_MS),
                Note(Pitch::Named(NamedPitch::C4), TUNE_NOTE_MS),
            ],
    {
        let mut notes: Vec<Note> = Vec::new();
        match self {
            Tune::Connect => {
                notes.push(Note(Pitch::Named(NamedPitch::C4), TUNE_NOTE_MS));
                notes.push(Note(Pitch::Named(NamedPitch::G4), TUNE_NOTE_MS));
            },
            Tune::Disconnect => {
                notes.push(Note(Pitch::Named(NamedPitch::G4), TUNE_NOTE_MS));
                notes.push(Note(Pitch::Named(NamedPitch::C4), TUNE_NOTE_MS));
            },
        }
        proof {
            assert(notes@ =~= tune_notes(*self));
        }
        notes
    }
}

impl AudioAction {
    /// The notes the audio driver plays for this request, in order.
    pub fn notes(&self) -> (notes: Vec<Note>)
        ensures
            notes@ == action_notes(*self),
            *self matches AudioAction::PlayNote(note) ==> notes@ == seq![note],
            *self matches AudioAction::PlayTune(tune) ==> notes@ == tune_notes(tune),
    {
        match self {
            AudioAction::PlayNote(note) => {
                let mut notes: Vec<Note> = Vec::new();
                notes.push(*note);
                proof {
                    assert(notes@ =~= action_notes(*self));
                }
                notes
            },
            AudioAction::PlayTune(tune) => tune.notes(),
        }
    }
}

/// A single-note request plays exactly that note, unchanged, whatever its
/// pitch and duration.
pub proof fn lemma_single_note_played_as_given(note: Note)
    ensures
        action_notes(AudioAction::PlayNote(note)).len() == 1,
        action_notes(AudioAction::PlayNote(note))[0] == note,
        action_notes(AudioAction::PlayNote(note))[0].0 == note.0,
        action_notes(AudioAction::PlayNote(note))[0].1 == note.1,
{
}

/// The disconnect tune is the connect tune played backwards.
pub proof fn lemma_disconnect_reverses_connect()
    ensures
        tune_notes(Tune::Disconnect) == tune_notes(Tune::Connect).reverse(),
{
    assert(tune_notes(Tune::Disconnect) =~= tune_notes(Tune::Connect).reverse());
}

} // verus!
