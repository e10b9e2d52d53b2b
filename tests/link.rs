use apollos_kiosk::link::{Link, LinkAction, LinkEvent, LinkPhase};
use apollos_kiosk::text::{same_text, starts_with_text};

#[test]
fn setup_failure_before_connecting_stops() {
    let (s, a) = Link::new().next(LinkEvent::Start);
    assert_eq!(a, LinkAction::Connect);
    let (s, a) = s.next(LinkEvent::SetupFailed);
    assert_eq!(a, LinkAction::Stop);
    assert_eq!(s.phase, LinkPhase::Stopped);
    let (s2, a) = s.next(LinkEvent::Start);
    assert_eq!(a, LinkAction::Nothing);
    assert_eq!(s2, s);
}

#[test]
fn messages_forward_and_drops_recover() {
    let (s, _) = Link::new().next(LinkEvent::Start);
    let (s, _) = s.next(LinkEvent::Ready);
    assert_eq!(s.phase, LinkPhase::Connected);
    assert_eq!(s.next(LinkEvent::Message).1, LinkAction::Forward);
    let (s, a) = s.next(LinkEvent::Lost);
    assert_eq!((s.phase, a), (LinkPhase::Disconnected, LinkAction::Nothing));
    let (s, _) = s.next(LinkEvent::Retrying);
    assert_eq!(s.phase, LinkPhase::Connecting);
    let (s, a) = s.next(LinkEvent::SetupFailed);
    assert_eq!((s.phase, a), (LinkPhase::Connecting, LinkAction::Nothing));
    let (s, _) = s.next(LinkEvent::Ready);
    assert_eq!(s.phase, LinkPhase::Connected);
}

#[test]
fn text_helpers() {
    assert!(same_text("abc", "abc"));
    assert!(!same_text("abc", "abd"));
    assert!(!same_text("ab", "abc"));
    assert!(starts_with_text("gtfs-1", "gtfs-"));
    assert!(!starts_with_text("gtf", "gtfs-"));
    assert!(starts_with_text("x", ""));
}
