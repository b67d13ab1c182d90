//! The event relay and status presenter: the single consumer of every
//! event the other components emit.
//!
//! The relay keeps the current generation and drops every event tagged
//! with any other generation; in-flight tasks of superseded generations
//! are thereby rendered inert without cancellation.  Events that survive
//! the filter update the presented state (status, window visibility) and
//! yield a [`UiPlan`] telling the driver which side effects to perform.

use vstd::prelude::*;

use crate::events::ProbeEvent;

verus! {

/// The presented backend status, shown as the tray tooltip.
#[derive(Debug, Clone, Copy, PartialEq, Eq)]
pub enum BackendStatus {
    /// Spawned (or spawning), readiness not yet decided.
    Starting,
    /// The health endpoint answered: the backend serves requests.
    Running,
    /// Spawning failed or the readiness budget ran out.
    Failed,
}

impl BackendStatus {
    /// The tooltip text for this status.
    pub fn text(&self) -> (s: &'static str)
        ensures
            *self is Starting ==> s@ == "Desktop backend se spouští..."@,
            *self is Running ==> s@ == "Desktop backend běží"@,
            *self is Failed ==> s@ == "Desktop backend selhal"@,
    {
        match self {
            BackendStatus::Starting => "Desktop backend se spouští...",
            BackendStatus::Running => "Desktop backend běží",
            BackendStatus::Failed => "Desktop backend selhal",
        }
    }
}

/// The side effects the driver must perform after the relay consumed one
/// event.  A default-empty plan means the event was dropped.
#[derive(Debug, Clone, Copy, PartialEq, Eq)]
pub struct UiPlan {
    /// Update the tray tooltip to this status's text.
    pub set_status: Option<BackendStatus>,
    /// Close the splash screen, then show and focus the main window.
    pub show_main_window: bool,
    /// Show the one-time "backend ready" notification.
    pub notify_ready: bool,
    /// Show the "backend failed" notification.
    pub notify_failure: bool,
    /// Show the blocking dialog carrying the failure message.
    pub show_error_dialog: bool,
}

/// The plan that performs nothing: what a dropped event yields.
pub open spec fn empty_ui_plan() -> UiPlan {
    UiPlan {
        set_status: None,
        show_main_window: false,
        notify_ready: false,
        notify_failure: false,
        show_error_dialog: false,
    }
}

/// The externally visible state kept by the relay.
#[derive(Debug, Clone, Copy, PartialEq, Eq)]
pub struct EventRelay {
    /// The only generation whose events are applied.
    pub current_generation: u64,
    /// The latest presented status of the current generation.
    pub status: BackendStatus,
    /// Whether the main window has been revealed.
    pub main_window_visible: bool,
    /// Whether the splash screen is still up.
    pub splash_visible: bool,
    /// Whether the one-time success notification was already shown for
    /// the current generation.
    pub ready_notified: bool,
}

/// The relay's state once a new generation has begun: the filter moves to
/// the new generation, the status returns to Starting and the success
/// notification is re-armed; window state is left as it is.
pub open spec fn relay_begun(r: EventRelay, generation: u64) -> EventRelay {
    EventRelay {
        current_generation: generation,
        status: BackendStatus::Starting,
        ready_notified: false,
        ..r
    }
}

/// The relay's state after consuming one readiness event.  Events of any
/// generation but the current one change nothing.
pub open spec fn relay_after_probe(r: EventRelay, generation: u64, event: ProbeEvent) -> EventRelay {
    if generation != r.current_generation {
        r
    } else {
        match event {
            ProbeEvent::Waiting(_) => EventRelay { status: BackendStatus::Starting, ..r },
            ProbeEvent::Ready(_) => EventRelay {
                status: BackendStatus::Running,
                main_window_visible: true,
                splash_visible: false,
                ready_notified: true,
                ..r
            },
            ProbeEvent::Error => EventRelay { status: BackendStatus::Failed, ..r },
        }
    }
}

/// The side effects one readiness event asks for.  Events of any
/// generation but the current one ask for nothing.
pub open spec fn probe_ui_plan(r: EventRelay, generation: u64, event: ProbeEvent) -> UiPlan {
    if generation != r.current_generation {
        empty_ui_plan()
    } else {
        match event {
            ProbeEvent::Waiting(_) => UiPlan {
                set_status: Some(BackendStatus::Starting),
                ..empty_ui_plan()
            },
            ProbeEvent::Ready(_) => UiPlan {
                set_status: Some(BackendStatus::Running),
                show_main_window: true,
                notify_ready: !r.ready_notified,
                notify_failure: false,
                show_error_dialog: false,
            },
            ProbeEvent::Error => UiPlan {
                set_status: Some(BackendStatus::Failed),
                show_main_window: false,
                notify_ready: false,
                notify_failure: true,
                show_error_dialog: true,
            },
        }
    }
}

/// The relay's state after a spawn failure was reported.  A report for
/// any generation but the current one changes nothing.
pub open spec fn relay_after_spawn_error(r: EventRelay, generation: u64) -> EventRelay {
    if generation != r.current_generation {
        r
    } else {
        EventRelay { status: BackendStatus::Failed, ..r }
    }
}

/// The side effects a spawn failure asks for: the same surface as a
/// readiness failure.
pub open spec fn spawn_error_ui_plan(r: EventRelay, generation: u64) -> UiPlan {
    if generation != r.current_generation {
        empty_ui_plan()
    } else {
        UiPlan {
            set_status: Some(BackendStatus::Failed),
            show_main_window: false,
            notify_ready: false,
            notify_failure: true,
            show_error_dialog: true,
        }
    }
}

impl EventRelay {
    /// The relay before anything was spawned: splash up, window hidden.
    pub fn new() -> (r: EventRelay)
        ensures
            r.current_generation == 0,
            r.status == BackendStatus::Starting,
            !r.main_window_visible,
            r.splash_visible,
            !r.ready_notified,
    {
        EventRelay {
            current_generation: 0,
            status: BackendStatus::Starting,
            main_window_visible: false,
            splash_visible: true,
            ready_notified: false,
        }
    }

    /// Moves the filter to a freshly allocated generation.  The
    /// supervisor's counter is strictly monotonic, so the new generation
    /// is strictly larger; every event of an older generation is dropped
    /// from here on.
    pub fn begin_generation(&mut self, generation: u64) -> (p: UiPlan)
        requires
            old(self).current_generation < generation,
        ensures
            *final(self) == relay_begun(*old(self), generation),
            p == (UiPlan { set_status: Some(BackendStatus::Starting), ..empty_ui_plan() }),
    {
        self.current_generation = generation;
        self.status = BackendStatus::Starting;
        self.ready_notified = false;
        UiPlan {
            set_status: Some(BackendStatus::Starting),
            show_main_window: false,
            notify_ready: false,
            notify_failure: false,
            show_error_dialog: false,
        }
    }

    /// Consumes one readiness event: drops it unless its generation is
    /// current, otherwise applies it and reports the side effects due.
    pub fn on_probe_event(&mut self, generation: u64, event: ProbeEvent) -> (p: UiPlan)
        ensures
            *final(self) == relay_after_probe(*old(self), generation, event),
            p == probe_ui_plan(*old(self), generation, event),
    {
        if generation != self.current_generation {
            UiPlan {
                set_status: None,
                show_main_window: false,
                notify_ready: false,
                notify_failure: false,
                show_error_dialog: false,
            }
        } else {
            match event {
                ProbeEvent::Waiting(_) => {
                    self.status = BackendStatus::Starting;
                    UiPlan {
                        set_status: Some(BackendStatus::Starting),
                        show_main_window: false,
                        notify_ready: false,
                        notify_failure: false,
                        show_error_dialog: false,
                    }
                },
                ProbeEvent::Ready(_) => {
                    let first_ready = !self.ready_notified;
                    self.status = BackendStatus::Running;
                    self.main_window_visible = true;
                    self.splash_visible = false;
                    self.ready_notified = true;
                    UiPlan {
                        set_status: Some(BackendStatus::Running),
                        show_main_window: true,
                        notify_ready: first_ready,
                        notify_failure: false,
                        show_error_dialog: false,
                    }
                },
                ProbeEvent::Error => {
                    self.status = BackendStatus::Failed;
                    UiPlan {
                        set_status: Some(BackendStatus::Failed),
                        show_main_window: false,
                        notify_ready: false,
                        notify_failure: true,
                        show_error_dialog: true,
                    }
                },
            }
        }
    }

    /// Consumes a spawn-failure report: drops it unless its generation is
    /// current, otherwise presents the failure.
    pub fn on_spawn_error(&mut self, generation: u64) -> (p: UiPlan)
        ensures
            *final(self) == relay_after_spawn_error(*old(self), generation),
            p == spawn_error_ui_plan(*old(self), generation),
    {
        if generation != self.current_generation {
            UiPlan {
                set_status: None,
                show_main_window: false,
                notify_ready: false,
                notify_failure: false,
                show_error_dialog: false,
            }
        } else {
            self.status = BackendStatus::Failed;
            UiPlan {
                set_status: Some(BackendStatus::Failed),
                show_main_window: false,
                notify_ready: false,
                notify_failure: true,
                show_error_dialog: true,
            }
        }
    }

    /// Whether a log line of the given generation is forwarded or dropped.
    pub fn should_forward_log(&self, generation: u64) -> (b: bool)
        ensures
            b == (generation == self.current_generation),
    {
        generation == self.current_generation
    }
}

/// Stale events are discarded: an event tagged with any generation other
/// than the relay's current one changes no state and triggers no UI work,
/// so the presented status reflects only the latest generation's events.
pub proof fn lemma_stale_event_ignored(r: EventRelay, generation: u64, event: ProbeEvent)
    requires
        generation != r.current_generation,
    ensures
        relay_after_probe(r, generation, event) == r,
        probe_ui_plan(r, generation, event) == empty_ui_plan(),
        relay_after_spawn_error(r, generation) == r,
        spawn_error_ui_plan(r, generation) == empty_ui_plan(),
{
}

/// A restart supersedes the prior generation even while that generation's
/// prober is still running: once the newer generation has begun, anything
/// the old prober still emits changes nothing, while the new generation's
/// readiness is applied as usual.
pub proof fn lemma_restart_supersedes(
    r: EventRelay,
    g_new: u64,
    stale: u64,
    event: ProbeEvent,
    attempt: u32,
)
    requires
        r.current_generation < g_new,
        stale < g_new,
    ensures
        relay_after_probe(relay_begun(r, g_new), stale, event) == relay_begun(r, g_new),
        relay_after_probe(relay_begun(r, g_new), g_new, ProbeEvent::Ready(attempt)).status
            == BackendStatus::Running,
{
}

} // verus!
