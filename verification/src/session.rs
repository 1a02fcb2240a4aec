use vstd::prelude::*;

use crate::io::audio::Tune;
use crate::io::display::DisplayFrame;

verus! {

/// How long the question mark is shown before each round of advertising,
/// in milliseconds.
pub const QUESTION_MARK_MS: u64 = 2000;

/// How long the heart is shown once a central has connected, in
/// milliseconds.
pub const HEART_MS: u64 = 1000;

/// Where the gamepad's main loop stands.
#[derive(Clone, Copy, Debug, PartialEq, Eq, Structural)]
pub enum SessionPhase {
    /// Started, nothing done yet.
    Starting,
    /// Advertising, waiting for a central.
    Advertising,
    /// Connected: the GATT server, button and stick tasks run.
    Connected,
}

/// What the main loop was told.
#[derive(Clone, Copy, Debug, PartialEq, Eq, Structural)]
pub enum SessionEvent {
    /// The firmware is up and its display is ready.
    Started,
    /// Advertising ended, with a connection or without one.
    Advertised { connected: bool },
    /// One of the connection's tasks ended: the connection is over.
    ServicesEnded,
}

/// One thing the main loop does, in order.
#[derive(Clone, Copy, Debug, PartialEq, Eq, Structural)]
pub enum SessionAction {
    /// Show the frame for the given number of milliseconds without waiting.
    Show(DisplayFrame, u64),
    /// Show the frame for the given number of milliseconds and wait for it.
    ShowBlocking(DisplayFrame, u64),
    /// Advertise for a connection.
    Advertise,
    /// Play the tune.
    PlayTune(Tune),
    /// Run the GATT server, button and stick tasks until one of them ends.
    RunServices,
}

/// The steps that start a round of advertising.
pub open spec fn advertise_round() -> Seq<SessionAction> {
    seq![SessionAction::Show(DisplayFrame::QuestionMark, QUESTION_MARK_MS), SessionAction::Advertise]
}

/// The phase of the main loop after an event.
pub open spec fn session_next(phase: SessionPhase, event: SessionEvent) -> SessionPhase {
    match (phase, event) {
        (SessionPhase::Starting, SessionEvent::Started) => SessionPhase::Advertising,
        (SessionPhase::Advertising, SessionEvent::Advertised { connected }) => if connected {
            SessionPhase::Connected
        } else {
            SessionPhase::Advertising
        },
        (SessionPhase::Connected, SessionEvent::ServicesEnded) => SessionPhase::Advertising,
        _ => phase,
    }
}

/// What the main loop does on an event: it advertises after start-up and
/// after each failed round; on a connection it plays the connect tune,
/// shows the heart and runs the services; when they end it plays the
/// disconnect tune and advertises again. An event that does not fit the
/// phase does nothing.
pub open spec fn session_actions(phase: SessionPhase, event: SessionEvent) -> Seq<SessionAction> {
    match (phase, event) {
        (SessionPhase::Starting, SessionEvent::Started) => advertise_round(),
        (SessionPhase::Advertising, SessionEvent::Advertised { connected }) => if connected {
            seq![
                SessionAction::PlayTune(Tune::Connect),
                SessionAction::ShowBlocking(DisplayFrame::Heart, HEART_MS),
                SessionAction::RunServices,
            ]
        } else {
            advertise_round()
        },
        (SessionPhase::Connected, SessionEvent::ServicesEnded) => seq![
            SessionAction::PlayTune(Tune::Disconnect),
        ] + advertise_round(),
        _ => seq![],
    }
}

/// The state of the main loop.
#[derive(Clone, Copy, Debug, PartialEq, Eq, Structural)]
pub struct Session {
    pub phase: SessionPhase,
}

impl Session {
    /// A main loop that has not started yet.
    pub fn new() -> (session: Self)
        ensures
            session.phase == SessionPhase::Starting,
    {
        Self { phase: SessionPhase::Starting }
    }

    fn push_advertise_round(actions: &mut Vec<SessionAction>)
        ensures
            final(actions)@ == old(actions)@ + advertise_round(),
    {
        actions.push(SessionAction::Show(DisplayFrame::QuestionMark, QUESTION_MARK_MS));
        actions.push(SessionAction::Advertise);
        proof {
            assert(final(actions)@ =~= old(actions)@ + advertise_round());
        }
    }

    /// Handles an event: returns what the main loop does and moves on to the
    /// next phase.
    pub fn on_event(&mut self, event: SessionEvent) -> (actions: Vec<SessionAction>)
        ensures
            final(self).phase == session_next(old(self).phase, event),
            actions@ == session_actions(old(self).phase, event),
            old(self).phase == SessionPhase::Starting && event == SessionEvent::Started ==> {
                &&& final(self).phase == SessionPhase::Advertising
                &&& actions@ == seq![
                    SessionAction::Show(DisplayFrame::QuestionMark, QUESTION_MARK_MS),
                    SessionAction::Advertise,
                ]
            },
            old(self).phase == SessionPhase::Advertising && event == (SessionEvent::Advertised {
                connected: true,
            }) ==> {
                &&& final(self).phase == SessionPhase::Connected
                &&& actions@ == seq![
                    SessionAction::PlayTune(Tune::Connect),
                    SessionAction::ShowBlocking(DisplayFrame::Heart, HEART_MS),
                    SessionAction::RunServices,
                ]
            },
            old(self).phase == SessionPhase::Advertising && event == (SessionEvent::Advertised {
                connected: false,
            }) ==> {
                &&& final(self).phase == SessionPhase::Advertising
                &&& actions@ == seq![
                    SessionAction::Show(DisplayFrame::QuestionMark, QUESTION_MARK_MS),
                    SessionAction::Advertise,
                ]
            },
            old(self).phase == SessionPhase::Connected && event == SessionEvent::ServicesEnded ==> {
                &&& final(self).phase == SessionPhase::Advertising
                &&& actions@ == seq![
                    SessionAction::PlayTune(Tune::Disconnect),
                    SessionAction::Show(DisplayFrame::QuestionMark, QUESTION_MARK_MS),
                    SessionAction::Advertise,
                ]
            },
    {
        let mut actions: Vec<SessionAction> = Vec::new();
        match (self.phase, event) {
            (SessionPhase::Starting, SessionEvent::Started) => {
                Self::push_advertise_round(&mut actions);
                self.phase = SessionPhase::Advertising;
            },
            (SessionPhase::Advertising, SessionEvent::Advertised { connected }) => {
                if connected {
                    actions.push(SessionAction::PlayTune(Tune::Connect));
                    actions.push(SessionAction::ShowBlocking(DisplayFrame::Heart, HEART_MS));
                    actions.push(SessionAction::RunServices);
                    self.phase = SessionPhase::Connected;
                } else {
                    Self::push_advertise_round(&mut actions);
                }
            },
            (SessionPhase::Connected, SessionEvent::ServicesEnded) => {
                actions.push(SessionAction::PlayTune(Tune::Disconnect));
                Self::push_advertise_round(&mut actions);
                self.phase = SessionPhase::Advertising;
            },
            _ => {},
        }
        proof {
            assert(actions@ =~= session_actions(old(self).phase, event));
        }
        actions
    }
}

/// The tunes a step plays.
pub open spec fn tunes_of(actions: Seq<SessionAction>) -> Seq<Tune>
    decreases actions.len(),
{
    if actions.len() == 0 {
        seq![]
    } else {
        let rest = tunes_of(actions.drop_first());
        match actions[0] {
            SessionAction::PlayTune(t) => seq![t] + rest,
            _ => rest,
        }
    }
}

/// The phase the main loop ends in after the events, in order.
pub open spec fn session_phase_after(phase: SessionPhase, events: Seq<SessionEvent>) -> SessionPhase
    decreases events.len(),
{
    if events.len() == 0 {
        phase
    } else {
        session_phase_after(session_next(phase, events[0]), events.drop_first())
    }
}

/// Every tune the main loop plays while it handles the events in order.
pub open spec fn session_tunes(phase: SessionPhase, events: Seq<SessionEvent>) -> Seq<Tune>
    decreases events.len(),
{
    if events.len() == 0 {
        seq![]
    } else {
        tunes_of(session_actions(phase, events[0])) + session_tunes(
            session_next(phase, events[0]),
            events.drop_first(),
        )
    }
}

/// The tune that marks entering the phase: connect for a connection,
/// disconnect for anything else.
pub open spec fn entry_tune(phase: SessionPhase) -> Tune {
    if phase == SessionPhase::Connected {
        Tune::Connect
    } else {
        Tune::Disconnect
    }
}

/// No two neighbours of the sequence are equal.
pub open spec fn tunes_alternate(s: Seq<Tune>) -> bool {
    forall|i: int| 0 <= i < s.len() - 1 ==> #[trigger] s[i] != s[i + 1]
}

proof fn lemma_step_tunes(phase: SessionPhase, event: SessionEvent)
    ensures
        tunes_of(session_actions(phase, event)) == (if (phase == SessionPhase::Connected)
            == (session_next(phase, event) == SessionPhase::Connected) {
            Seq::<Tune>::empty()
        } else {
            seq![entry_tune(session_next(phase, event))]
        }),
{
    let acts = session_actions(phase, event);
    reveal_with_fuel(tunes_of, 5);
    if (phase == SessionPhase::Connected) == (session_next(phase, event) == SessionPhase::Connected) {
        assert(tunes_of(acts) =~= Seq::<Tune>::empty());
    } else {
        assert(tunes_of(acts) =~= seq![entry_tune(session_next(phase, event))]);
    }
}

/// Every connection is framed by the tunes: the main loop plays the connect
/// and the disconnect tune by turns, never one twice in a row, and the last
/// tune played tells whether the gamepad is connected. From start-up the
/// first tune played is the connect tune.
pub proof fn lemma_tunes_alternate(phase: SessionPhase, events: Seq<SessionEvent>)
    ensures
        tunes_alternate(seq![entry_tune(phase)] + session_tunes(phase, events)),
        (seq![entry_tune(phase)] + session_tunes(phase, events)).last() == entry_tune(
            session_phase_after(phase, events),
        ),
    decreases events.len(),
{
    let ts = session_tunes(phase, events);
    if events.len() == 0 {
        assert(seq![entry_tune(phase)] + ts =~= seq![entry_tune(phase)]);
    } else {
        let p1 = session_next(phase, events[0]);
        let rest = events.drop_first();
        lemma_tunes_alternate(p1, rest);
        lemma_step_tunes(phase, events[0]);
        let tail = session_tunes(p1, rest);
        let whole = seq![entry_tune(phase)] + ts;
        let sub = seq![entry_tune(p1)] + tail;
        if (phase == SessionPhase::Connected) == (p1 == SessionPhase::Connected) {
            assert(ts =~= tail);
            assert(entry_tune(p1) == entry_tune(phase));
            assert(whole =~= sub);
        } else {
            assert(entry_tune(p1) != entry_tune(phase));
            assert(ts =~= seq![entry_tune(p1)] + tail);
            assert(whole =~= seq![entry_tune(phase)] + sub);
            assert forall|i: int| 0 <= i < whole.len() - 1 implies #[trigger] whole[i] != whole[i + 1] by {
                if i > 0 {
                    assert(whole[i] == sub[i - 1]);
                    assert(whole[i + 1] == sub[i]);
                }
            }
        }
    }
}

} // verus!
