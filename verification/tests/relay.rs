use dmx_shell::events::{LogLine, ProbeEvent, StreamTag};
use dmx_shell::relay::{BackendStatus, EventRelay};
use dmx_shell::supervisor::{plan_after_spawn, Supervisor, SIDECAR_NAME};

#[test]
fn ready_scenario_shows_window() {
    // 503 on attempts 1..=3, then 200 on attempt 4.
    let mut relay = EventRelay::new();
    let mut supervisor = Supervisor::new();
    let generation = supervisor.allocate_generation();
    let plan = relay.begin_generation(generation);
    assert_eq!(plan.set_status, Some(BackendStatus::Starting));

    for attempt in 1..=3 {
        let plan = relay.on_probe_event(generation, ProbeEvent::Waiting(attempt));
        assert_eq!(plan.set_status, Some(BackendStatus::Starting));
        assert!(!plan.show_main_window);
        assert!(!relay.main_window_visible);
    }

    let plan = relay.on_probe_event(generation, ProbeEvent::Ready(4));
    assert!(plan.show_main_window);
    assert!(plan.notify_ready);
    assert_eq!(plan.set_status, Some(BackendStatus::Running));
    assert!(relay.main_window_visible);
    assert!(!relay.splash_visible);
    assert_eq!(relay.status, BackendStatus::Running);
    assert_eq!(relay.status.text(), "Desktop backend běží");
}

#[test]
fn stale_generation_events_dropped() {
    let mut relay = EventRelay::new();
    relay.begin_generation(1);
    relay.begin_generation(2);

    // Generation 1's prober still reports; nothing may change.
    let plan = relay.on_probe_event(1, ProbeEvent::Ready(5));
    assert_eq!(plan.set_status, None);
    assert!(!plan.show_main_window && !plan.notify_ready);
    assert_eq!(relay.status, BackendStatus::Starting);
    assert!(!relay.main_window_visible);

    let plan = relay.on_probe_event(1, ProbeEvent::Error);
    assert_eq!(plan.set_status, None);
    assert!(!plan.show_error_dialog && !plan.notify_failure);
    assert_eq!(relay.status, BackendStatus::Starting);

    // The current generation's events still apply.
    let plan = relay.on_probe_event(2, ProbeEvent::Ready(1));
    assert!(plan.show_main_window);
    assert_eq!(relay.status, BackendStatus::Running);
}

#[test]
fn restart_supersedes_prior_generation() {
    // Restart happens while generation 1's prober is still running; its
    // remaining events are rendered inert and generation 2 wins.
    let mut relay = EventRelay::new();
    let mut supervisor = Supervisor::new();
    let g1 = supervisor.allocate_generation();
    relay.begin_generation(g1);
    relay.on_probe_event(g1, ProbeEvent::Waiting(1));

    let g2 = supervisor.allocate_generation();
    relay.begin_generation(g2);

    relay.on_probe_event(g1, ProbeEvent::Waiting(2));
    relay.on_probe_event(g1, ProbeEvent::Error);
    assert_eq!(relay.status, BackendStatus::Starting);

    relay.on_probe_event(g2, ProbeEvent::Ready(3));
    assert_eq!(relay.status, BackendStatus::Running);
}

#[test]
fn timeout_presents_failure() {
    let mut relay = EventRelay::new();
    relay.begin_generation(1);
    for attempt in 1..=60 {
        relay.on_probe_event(1, ProbeEvent::Waiting(attempt));
    }
    let plan = relay.on_probe_event(1, ProbeEvent::Error);
    assert!(plan.show_error_dialog);
    assert!(plan.notify_failure);
    assert_eq!(plan.set_status, Some(BackendStatus::Failed));
    assert_eq!(relay.status, BackendStatus::Failed);
    assert_eq!(relay.status.text(), "Desktop backend selhal");
    // The window is left as it was: the process may still be starting
    // slowly, so the user can look at logs before restarting.
    assert!(!relay.main_window_visible);
}

#[test]
fn ready_notification_fires_once() {
    let mut relay = EventRelay::new();
    relay.begin_generation(1);
    let first = relay.on_probe_event(1, ProbeEvent::Ready(2));
    assert!(first.notify_ready);
    let second = relay.on_probe_event(1, ProbeEvent::Ready(2));
    assert!(!second.notify_ready);
}

#[test]
fn spawn_error_scenario() {
    // Sidecar binary absent: no prober or output relay starts, the
    // failure is surfaced once with dialog and notification.
    let plan = plan_after_spawn(false);
    assert!(!plan.start_prober);
    assert!(!plan.start_output_relay);
    assert!(plan.report_spawn_error);

    let mut relay = EventRelay::new();
    let mut supervisor = Supervisor::new();
    let generation = supervisor.allocate_generation();
    relay.begin_generation(generation);
    let ui = relay.on_spawn_error(generation);
    assert!(ui.show_error_dialog);
    assert!(ui.notify_failure);
    assert_eq!(ui.set_status, Some(BackendStatus::Failed));
    assert_eq!(relay.status, BackendStatus::Failed);
    assert!(!relay.main_window_visible);
}

#[test]
fn successful_spawn_starts_both_tasks() {
    let plan = plan_after_spawn(true);
    assert!(plan.start_prober);
    assert!(plan.start_output_relay);
    assert!(!plan.report_spawn_error);
}

#[test]
fn stale_spawn_error_dropped() {
    let mut relay = EventRelay::new();
    relay.begin_generation(1);
    relay.on_probe_event(1, ProbeEvent::Ready(1));
    relay.begin_generation(2);
    let ui = relay.on_spawn_error(1);
    assert!(!ui.show_error_dialog);
    assert_eq!(relay.status, BackendStatus::Starting);
}

#[test]
fn generations_increase_monotonically() {
    let mut supervisor = Supervisor::new();
    assert_eq!(supervisor.generation, 0);
    let g1 = supervisor.allocate_generation();
    let g2 = supervisor.allocate_generation();
    let g3 = supervisor.allocate_generation();
    assert_eq!((g1, g2, g3), (1, 2, 3));
    assert_eq!(supervisor.generation, 3);
}

#[test]
fn log_lines_filtered_by_generation() {
    let mut relay = EventRelay::new();
    relay.begin_generation(3);
    assert!(relay.should_forward_log(3));
    assert!(!relay.should_forward_log(2));
    assert!(!relay.should_forward_log(4));
}

#[test]
fn log_line_keeps_stream_and_text() {
    let line = LogLine::new(StreamTag::Stderr, String::from("panic: oh no"));
    assert_eq!(line.tag, StreamTag::Stderr);
    assert_eq!(line.text, "panic: oh no");
    assert_eq!(line.console_text(), "[dmx-backend] panic: oh no");
}

#[test]
fn sidecar_name_is_fixed() {
    assert_eq!(SIDECAR_NAME, "dmx-backend");
}
