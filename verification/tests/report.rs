use skywalking_agent::module::{is_ready_for_request, mark_ready_for_request, ReadinessGate};
use skywalking_agent::report::{
    instance_properties, Action, Event, Phase, Reporter, State, RETRY_INTERVAL_SECS,
};
use skywalking_agent::worker::{begin, start_worker};

#[test]
fn gate_starts_closed_and_stays_open() {
    let mut gate = ReadinessGate::new();
    assert!(!is_ready_for_request(&gate));
    mark_ready_for_request(&mut gate);
    assert!(is_ready_for_request(&gate));
    mark_ready_for_request(&mut gate);
    assert!(is_ready_for_request(&gate));
}

#[test]
fn readiness_comes_only_after_the_third_connect_attempt() {
    let mut gate = ReadinessGate::new();
    let mut reporter = Reporter::new();
    assert_eq!(reporter.phase(), Phase::Disconnected);
    assert_eq!(reporter.handle_with_gate(&mut gate, Event::Started), Some(Action::Connect));
    let mut attempts = 1;
    for _ in 0..2 {
        assert_eq!(
            reporter.handle_with_gate(&mut gate, Event::ConnectFailed),
            Some(Action::Backoff)
        );
        assert!(!is_ready_for_request(&gate));
        assert_eq!(
            reporter.handle_with_gate(&mut gate, Event::BackoffElapsed),
            Some(Action::Connect)
        );
        attempts += 1;
        assert!(!is_ready_for_request(&gate));
    }
    assert_eq!(attempts, 3);
    assert_eq!(reporter.handle_with_gate(&mut gate, Event::Connected), Some(Action::Register));
    assert_eq!(reporter.phase(), Phase::Unregistered);
    assert!(!is_ready_for_request(&gate));
    assert_eq!(reporter.handle_with_gate(&mut gate, Event::Registered), Some(Action::Receive));
    assert!(is_ready_for_request(&gate));
    assert_eq!(reporter.phase(), Phase::Ready);
    assert_eq!(reporter.state(), State::Receiving);
}

#[test]
fn readiness_waits_while_registration_fails() {
    let mut gate = ReadinessGate::new();
    let mut reporter = Reporter::new();
    assert_eq!(reporter.handle(Event::Started), Some(Action::Connect));
    assert_eq!(reporter.handle(Event::Connected), Some(Action::Register));
    let mut marks = 0;
    for _ in 0..5 {
        assert_eq!(reporter.handle(Event::RegisterFailed), Some(Action::Backoff));
        assert_eq!(reporter.handle(Event::BackoffElapsed), Some(Action::Register));
        assert_eq!(reporter.phase(), Phase::Unregistered);
        assert!(!is_ready_for_request(&gate));
    }
    let action = reporter.handle(Event::Registered);
    assert_eq!(action, Some(Action::MarkReady));
    if action == Some(Action::MarkReady) {
        mark_ready_for_request(&mut gate);
        marks += 1;
    }
    assert_eq!(reporter.handle(Event::ReadyMarked), Some(Action::Receive));
    assert_eq!(reporter.handle(Event::Registered), None);
    assert_eq!(reporter.handle(Event::Connected), None);
    assert_eq!(marks, 1);
    assert!(is_ready_for_request(&gate));
}

#[test]
fn connect_is_retried_after_every_failure() {
    let mut reporter = Reporter::new();
    let mut connects = 0;
    let mut pauses = 0;
    let mut action = reporter.handle(Event::Started);
    for _ in 0..6 {
        match action {
            Some(Action::Connect) => {
                connects += 1;
                action = reporter.handle(Event::ConnectFailed);
            }
            Some(Action::Backoff) => {
                pauses += 1;
                action = reporter.handle(Event::BackoffElapsed);
            }
            other => panic!("the reporter asked for {:?}", other),
        }
    }
    assert_eq!(pauses, 3);
    assert_eq!(connects, 3);
    assert_eq!(action, Some(Action::Connect));
    assert_eq!(reporter.state(), State::Connecting);
    assert_eq!(reporter.pending_action(), Some(Action::Connect));
    assert_eq!(RETRY_INTERVAL_SECS, 10);
}

#[test]
fn failed_segment_is_dropped_after_a_pause() {
    let mut reporter = Reporter::new();
    reporter.handle(Event::Started);
    reporter.handle(Event::Connected);
    reporter.handle(Event::Registered);
    assert_eq!(reporter.handle(Event::ReadyMarked), Some(Action::Receive));
    assert_eq!(reporter.handle(Event::Received), Some(Action::Deliver));
    assert_eq!(reporter.handle(Event::Delivered), Some(Action::Receive));
    assert_eq!(reporter.handle(Event::Received), Some(Action::Deliver));
    assert_eq!(reporter.handle(Event::DeliverFailed), Some(Action::Backoff));
    assert_eq!(reporter.state(), State::StreamBackoff);
    assert_eq!(reporter.handle(Event::BackoffElapsed), Some(Action::Receive));
    assert_eq!(reporter.handle(Event::ReceiveFailed), Some(Action::Backoff));
    assert_eq!(reporter.handle(Event::BackoffElapsed), Some(Action::Receive));
    assert_eq!(reporter.phase(), Phase::Ready);
}

#[test]
fn event_that_answers_nothing_is_passed_over() {
    let mut reporter = Reporter::new();
    assert_eq!(reporter.pending_action(), None);
    assert_eq!(reporter.handle(Event::Connected), None);
    assert_eq!(reporter.state(), State::Disconnected);
    assert_eq!(reporter.handle(Event::Started), Some(Action::Connect));
    assert_eq!(reporter.handle(Event::Started), None);
    assert_eq!(reporter.handle(Event::Registered), None);
    assert_eq!(reporter.handle(Event::BackoffElapsed), None);
    assert_eq!(reporter.state(), State::Connecting);
}

#[test]
fn reporter_starts_only_with_a_usable_address() {
    let mut reporter = Reporter::new();
    assert_eq!(begin(&mut reporter, false), None);
    assert_eq!(reporter.state(), State::Disconnected);
    assert_eq!(begin(&mut reporter, true), Some(Action::Connect));
    assert_eq!(reporter.state(), State::Connecting);
}

#[test]
fn worker_starts_for_the_default_collector_address() {
    let mut reporter = Reporter::new();
    assert_eq!(start_worker(&mut reporter, "http://127.0.0.1:11800"), Some(Action::Connect));
    assert_eq!(reporter.phase(), Phase::Connecting);
}

#[test]
fn worker_does_not_start_for_an_address_that_is_no_uri() {
    let mut reporter = Reporter::new();
    assert_eq!(start_worker(&mut reporter, ""), None);
    assert_eq!(reporter.phase(), Phase::Disconnected);
    assert_eq!(start_worker(&mut reporter, "http://bad host/"), None);
    assert_eq!(reporter.phase(), Phase::Disconnected);
}

#[test]
fn instance_is_described_by_six_pairs() {
    let ips = vec!["10.0.0.7".to_string(), "192.168.1.20".to_string()];
    let message = instance_properties(
        "hello-skywalking",
        "abc@10.0.0.7",
        "Linux",
        "web-1",
        4711,
        &ips,
        "2022-08-01 09:05:03",
    );
    assert_eq!(message.service, "hello-skywalking");
    assert_eq!(message.service_instance, "abc@10.0.0.7");
    assert_eq!(message.layer, "");
    let pairs: Vec<(&str, &str)> =
        message.properties.iter().map(|p| (p.key.as_str(), p.value.as_str())).collect();
    assert_eq!(
        pairs,
        vec![
            ("language", "php"),
            ("OS Name", "Linux"),
            ("hostname", "web-1"),
            ("Process No.", "4711"),
            ("ipv4", "10.0.0.7,192.168.1.20"),
            ("Start Time", "2022-08-01 09:05:03"),
        ]
    );
}
