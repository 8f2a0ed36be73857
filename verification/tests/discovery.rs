use yamaha_control::discovery::{
    expected_full_name, scan_events, DiscoveryEvent, Ipv4, Scanner, MAX_SEARCH_ATTEMPTS,
};

fn resolved(full_name: &str, addresses: Vec<Ipv4>) -> DiscoveryEvent {
    DiscoveryEvent::ServiceResolved {
        full_name: full_name.to_string(),
        addresses,
    }
}

#[test]
fn full_name_appends_service_type() {
    assert_eq!(
        expected_full_name("Sypialnia"),
        "Sypialnia._http._tcp.local."
    );
}

#[test]
fn scan_gives_up_at_exactly_the_sixth_restart() {
    assert_eq!(MAX_SEARCH_ATTEMPTS, 6);
    let mut scanner = Scanner::new("Sypialnia");
    for _ in 0..5 {
        assert_eq!(scanner.on_event(DiscoveryEvent::SearchStarted), None);
        assert!(!scanner.finished());
    }
    assert_eq!(
        scanner.on_event(DiscoveryEvent::SearchStarted),
        Some(vec![])
    );
    assert!(scanner.finished());
}

#[test]
fn scan_of_six_restarts_returns_empty() {
    let events = vec![DiscoveryEvent::SearchStarted; 6];
    assert_eq!(scan_events("Sypialnia", events), vec![]);
}

#[test]
fn restart_cap_beats_a_later_match() {
    let addr = Ipv4 {
        octets: [10, 0, 0, 5],
    };
    let mut events = vec![DiscoveryEvent::SearchStarted; 6];
    events.push(resolved("Sypialnia._http._tcp.local.", vec![addr]));
    assert_eq!(scan_events("Sypialnia", events), vec![]);
}

#[test]
fn first_match_wins_and_later_events_are_ignored() {
    let addr = Ipv4 {
        octets: [10, 0, 0, 5],
    };
    let other = Ipv4 {
        octets: [192, 168, 0, 9],
    };
    let events = vec![
        DiscoveryEvent::SearchStarted,
        DiscoveryEvent::Other,
        resolved("Salon._http._tcp.local.", vec![other]),
        resolved("Sypialnia._http._tcp.local.", vec![addr]),
        DiscoveryEvent::SearchStarted,
        resolved("Sypialnia._http._tcp.local.", vec![other]),
    ];
    assert_eq!(scan_events("Sypialnia", events), vec![addr]);
}

#[test]
fn match_ends_the_scan_immediately() {
    let addr = Ipv4 {
        octets: [10, 0, 0, 5],
    };
    let mut scanner = Scanner::new("Sypialnia");
    assert_eq!(
        scanner.on_event(resolved("Sypialnia._http._tcp.local.", vec![addr])),
        Some(vec![addr])
    );
}

#[test]
fn unmatched_names_and_other_events_continue_the_scan() {
    let addr = Ipv4 {
        octets: [10, 0, 0, 5],
    };
    let mut scanner = Scanner::new("Sypialnia");
    assert_eq!(scanner.on_event(DiscoveryEvent::Other), None);
    assert_eq!(
        scanner.on_event(resolved("Salon._http._tcp.local.", vec![addr])),
        None
    );
    assert_eq!(
        scanner.on_event(resolved("Sypialnia", vec![addr])),
        None
    );
}

#[test]
fn exhausted_event_stream_returns_empty() {
    assert_eq!(scan_events("Sypialnia", vec![]), vec![]);
    let events = vec![DiscoveryEvent::Other, DiscoveryEvent::SearchStarted];
    assert_eq!(scan_events("Sypialnia", events), vec![]);
}
