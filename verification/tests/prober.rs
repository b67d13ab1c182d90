use dmx_shell::events::ProbeEvent;
use dmx_shell::prober::{
    run_probe, status_line_indicates_success, Prober, ReadinessState, BACKEND_MAX_ATTEMPTS,
};

#[test]
fn success_on_first_attempt() {
    let events = run_probe(&vec![true]);
    assert_eq!(events, vec![ProbeEvent::Ready(1)]);
}

#[test]
fn success_on_fourth_attempt() {
    // Health endpoint answers 503 for attempts 1..=3, then 200 on attempt 4.
    let events = run_probe(&vec![false, false, false, true]);
    assert_eq!(
        events,
        vec![
            ProbeEvent::Waiting(1),
            ProbeEvent::Waiting(2),
            ProbeEvent::Waiting(3),
            ProbeEvent::Ready(4),
        ]
    );
}

#[test]
fn success_on_last_attempt() {
    let mut outcomes = vec![false; 59];
    outcomes.push(true);
    let events = run_probe(&outcomes);
    assert_eq!(events.len(), 60);
    for (i, event) in events.iter().take(59).enumerate() {
        assert_eq!(*event, ProbeEvent::Waiting(i as u32 + 1));
    }
    assert_eq!(events[59], ProbeEvent::Ready(60));
}

#[test]
fn all_attempts_fail() {
    let events = run_probe(&vec![false; 60]);
    assert_eq!(events.len(), 61);
    for (i, event) in events.iter().take(60).enumerate() {
        assert_eq!(*event, ProbeEvent::Waiting(i as u32 + 1));
    }
    assert_eq!(events[60], ProbeEvent::Error);
    assert!(!events.iter().any(|e| matches!(e, ProbeEvent::Ready(_))));
}

#[test]
fn no_ready_after_budget_exhausted() {
    // Even a success after the budget ran out emits nothing more:
    // terminal states are absorbing.
    let mut outcomes = vec![false; 60];
    outcomes.push(true);
    let events = run_probe(&outcomes);
    assert_eq!(events.len(), 61);
    assert!(!events.iter().any(|e| matches!(e, ProbeEvent::Ready(_))));
    assert_eq!(events[60], ProbeEvent::Error);
}

#[test]
fn never_both_ready_and_error() {
    let runs: Vec<Vec<bool>> = vec![
        vec![],
        vec![true],
        vec![false, true, false],
        vec![false; 60],
        vec![false; 80],
        {
            let mut v = vec![false; 59];
            v.push(true);
            v
        },
    ];
    for outcomes in runs {
        let events = run_probe(&outcomes);
        let ready = events.iter().any(|e| matches!(e, ProbeEvent::Ready(_)));
        let error = events.iter().any(|e| matches!(e, ProbeEvent::Error));
        assert!(!(ready && error));
    }
}

#[test]
fn no_events_without_outcomes() {
    let events = run_probe(&vec![]);
    assert!(events.is_empty());
}

#[test]
fn outcomes_after_success_are_ignored() {
    let events = run_probe(&vec![true, false, false]);
    assert_eq!(events, vec![ProbeEvent::Ready(1)]);
}

#[test]
fn step_reports_events_and_schedule() {
    let mut prober = Prober::new();
    assert_eq!(prober.state, ReadinessState::Starting);

    let r = prober.step(false);
    assert_eq!(r.events, vec![ProbeEvent::Waiting(1)]);
    assert!(r.poll_again);
    assert_eq!(prober.state, ReadinessState::Waiting { attempts: 1 });

    let r = prober.step(true);
    assert_eq!(r.events, vec![ProbeEvent::Ready(2)]);
    assert!(!r.poll_again);
    assert_eq!(prober.state, ReadinessState::Ready { attempt: 2 });
}

#[test]
fn last_failure_emits_waiting_then_error() {
    let mut prober = Prober::new();
    for _ in 0..59 {
        let r = prober.step(false);
        assert!(r.poll_again);
    }
    let r = prober.step(false);
    assert_eq!(r.events, vec![ProbeEvent::Waiting(60), ProbeEvent::Error]);
    assert!(!r.poll_again);
    assert_eq!(prober.state, ReadinessState::Failed);
}

#[test]
fn status_lines_in_2xx_class_succeed() {
    assert!(status_line_indicates_success("HTTP/1.1 200 OK"));
    assert!(status_line_indicates_success("HTTP/1.1 204"));
    assert!(status_line_indicates_success("HTTP/1.0 299 Whatever"));
}

#[test]
fn status_lines_outside_2xx_class_fail() {
    assert!(!status_line_indicates_success("HTTP/1.1 503 Service Unavailable"));
    assert!(!status_line_indicates_success("HTTP/1.1 199 Early Hints"));
    assert!(!status_line_indicates_success("HTTP/1.1 301 Moved Permanently"));
    assert!(!status_line_indicates_success("HTTP/1.1 404 Not Found"));
}

#[test]
fn malformed_status_lines_fail() {
    assert!(!status_line_indicates_success(""));
    assert!(!status_line_indicates_success("garbage"));
    assert!(!status_line_indicates_success("HTTP/1.1"));
    assert!(!status_line_indicates_success("HTTP/1.1 2000 Nope"));
    assert!(!status_line_indicates_success("HTTP/1.1 2x0 Nope"));
    assert!(!status_line_indicates_success("HTTP/1.1 20"));
}

#[test]
fn attempt_budget_is_sixty() {
    assert_eq!(BACKEND_MAX_ATTEMPTS, 60);
    assert_eq!(dmx_shell::prober::BACKEND_POLL_INTERVAL_MS, 500);
    assert_eq!(dmx_shell::prober::BACKEND_HEALTH_TIMEOUT_SECS, 2);
}
