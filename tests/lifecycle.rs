use sums::{Outcome, Session, SessionEvent};

fn releases(events: &[SessionEvent]) -> usize {
    let mut session = Session::new(1);
    events.iter().filter(|e| session.on_event(**e)).count()
}

#[test]
fn released_once_on_every_path() {
    for outcome in [
        Outcome::Success,
        Outcome::AuthRejected,
        Outcome::TransportFault,
        Outcome::ExtractionFault,
    ] {
        assert_eq!(releases(&[SessionEvent::FlowEnded(outcome), SessionEvent::Disposed]), 1);
    }
    assert_eq!(releases(&[SessionEvent::Disposed]), 1);
}

#[test]
fn abandoned_session_is_not_released_again() {
    let events = [
        SessionEvent::FlowEnded(Outcome::Success),
        SessionEvent::Abandoned,
        SessionEvent::FlowEnded(Outcome::TransportFault),
        SessionEvent::Disposed,
    ];
    assert_eq!(releases(&events), 1);
}

#[test]
fn not_released_before_the_end() {
    let mut session = Session::new(9);
    assert!(!session.on_event(SessionEvent::FlowEnded(Outcome::AuthRejected)));
    assert!(session.is_open());
    assert!(session.on_event(SessionEvent::Disposed));
    assert!(!session.is_open());
    assert!(!session.on_event(SessionEvent::Disposed));
    assert_eq!(session.group_id, 9);
}
