use gamepad::io::audio::Tune;
use gamepad::io::display::DisplayFrame;
use gamepad::session::{Session, SessionAction, SessionEvent, SessionPhase, HEART_MS, QUESTION_MARK_MS};

#[test]
fn start_advertises() {
    let mut s = Session::new();
    assert_eq!(s.phase, SessionPhase::Starting);
    assert_eq!(
        s.on_event(SessionEvent::Started),
        vec![SessionAction::Show(DisplayFrame::QuestionMark, 2000), SessionAction::Advertise]
    );
    assert_eq!(s.phase, SessionPhase::Advertising);
}

#[test]
fn failed_advertising_retries() {
    let mut s = Session::new();
    s.on_event(SessionEvent::Started);
    assert_eq!(
        s.on_event(SessionEvent::Advertised { connected: false }),
        vec![SessionAction::Show(DisplayFrame::QuestionMark, 2000), SessionAction::Advertise]
    );
    assert_eq!(s.phase, SessionPhase::Advertising);
}

#[test]
fn connection_plays_tunes_around_services() {
    let mut s = Session::new();
    s.on_event(SessionEvent::Started);
    assert_eq!(
        s.on_event(SessionEvent::Advertised { connected: true }),
        vec![
            SessionAction::PlayTune(Tune::Connect),
            SessionAction::ShowBlocking(DisplayFrame::Heart, 1000),
            SessionAction::RunServices,
        ]
    );
    assert_eq!(s.phase, SessionPhase::Connected);
    assert_eq!(
        s.on_event(SessionEvent::ServicesEnded),
        vec![
            SessionAction::PlayTune(Tune::Disconnect),
            SessionAction::Show(DisplayFrame::QuestionMark, 2000),
            SessionAction::Advertise,
        ]
    );
    assert_eq!(s.phase, SessionPhase::Advertising);
}

#[test]
fn out_of_turn_events_do_nothing() {
    let mut s = Session::new();
    assert_eq!(s.on_event(SessionEvent::ServicesEnded), vec![]);
    assert_eq!(s.on_event(SessionEvent::Advertised { connected: true }), vec![]);
    assert_eq!(s.phase, SessionPhase::Starting);
    s.on_event(SessionEvent::Started);
    assert_eq!(s.on_event(SessionEvent::Started), vec![]);
    assert_eq!(s.on_event(SessionEvent::ServicesEnded), vec![]);
    assert_eq!(s.phase, SessionPhase::Advertising);
}

#[test]
fn tunes_alternate_over_sessions() {
    let mut s = Session::new();
    let events = [
        SessionEvent::Started,
        SessionEvent::Advertised { connected: false },
        SessionEvent::Advertised { connected: true },
        SessionEvent::Advertised { connected: true },
        SessionEvent::ServicesEnded,
        SessionEvent::ServicesEnded,
        SessionEvent::Advertised { connected: true },
    ];
    let mut tunes = Vec::new();
    for e in events {
        for a in s.on_event(e) {
            if let SessionAction::PlayTune(t) = a {
                tunes.push(t);
            }
        }
    }
    assert_eq!(tunes, vec![Tune::Connect, Tune::Disconnect, Tune::Connect]);
    assert_eq!(s.phase, SessionPhase::Connected);
    assert_eq!(QUESTION_MARK_MS, 2000);
    assert_eq!(HEART_MS, 1000);
}
