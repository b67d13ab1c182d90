//! The readiness prober: a per-generation state machine that consumes
//! health-check outcomes and emits readiness events until it reaches a
//! terminal state.
//!
//! One probe outcome is a single `bool`: `true` for a 2xx response,
//! `false` for any other status, connection failure or timeout.  The
//! prober counts attempts, emits `Waiting(n)` after each failure, and
//! stops with `Ready(n)` on the first success or with `Error` once the
//! attempt budget is exhausted.  Ready and Failed are absorbing: a
//! terminal prober never emits again.

use vstd::prelude::*;

use crate::events::ProbeEvent;

verus! {

/// The attempt budget: how many health checks are made before giving up.
pub const BACKEND_MAX_ATTEMPTS: u32 = 60;

/// How long one health-check request may take before it counts as failed,
/// in seconds.
pub const BACKEND_HEALTH_TIMEOUT_SECS: u64 = 2;

/// The pause between two consecutive health checks, in milliseconds.
pub const BACKEND_POLL_INTERVAL_MS: u64 = 500;

/// The readiness of one generation's backend, as far as probing has shown.
#[derive(Debug, Clone, Copy, PartialEq, Eq)]
pub enum ReadinessState {
    /// No probe has been made yet.
    Starting,
    /// `attempts` probes were made and all failed; more are due.
    Waiting { attempts: u32 },
    /// Probe number `attempt` succeeded; probing has stopped.
    Ready { attempt: u32 },
    /// Every probe in the budget failed; probing has stopped.
    Failed,
}

impl ReadinessState {
    /// How many probe attempts this state accounts for.
    pub open spec fn attempts_made(self) -> nat {
        match self {
            ReadinessState::Starting => 0,
            ReadinessState::Waiting { attempts } => attempts as nat,
            ReadinessState::Ready { attempt } => attempt as nat,
            ReadinessState::Failed => BACKEND_MAX_ATTEMPTS as nat,
        }
    }

    /// Ready and Failed are absorbing: probing is over.
    pub open spec fn is_terminal(self) -> bool {
        self is Ready || self is Failed
    }

    /// Attempt counts stay within the budget.
    pub open spec fn wf(self) -> bool {
        match self {
            ReadinessState::Starting => true,
            ReadinessState::Waiting { attempts } => 1 <= attempts
                && attempts < BACKEND_MAX_ATTEMPTS,
            ReadinessState::Ready { attempt } => 1 <= attempt
                && attempt <= BACKEND_MAX_ATTEMPTS,
            ReadinessState::Failed => true,
        }
    }
}

/// The state the prober moves to after one more outcome, given that
/// `made` attempts had failed so far.
pub open spec fn step_state(made: nat, success: bool) -> ReadinessState {
    if success {
        ReadinessState::Ready { attempt: (made + 1) as u32 }
    } else if made + 1 >= BACKEND_MAX_ATTEMPTS {
        ReadinessState::Failed
    } else {
        ReadinessState::Waiting { attempts: (made + 1) as u32 }
    }
}

/// The events one more outcome makes the prober emit, given that `made`
/// attempts had failed so far.
pub open spec fn step_events(made: nat, success: bool) -> Seq<ProbeEvent> {
    if success {
        seq![ProbeEvent::Ready((made + 1) as u32)]
    } else if made + 1 >= BACKEND_MAX_ATTEMPTS {
        seq![ProbeEvent::Waiting((made + 1) as u32), ProbeEvent::Error]
    } else {
        seq![ProbeEvent::Waiting((made + 1) as u32)]
    }
}

/// All events the prober emits when it consumes `outcomes` in order,
/// starting with `made` failed attempts behind it.  Consumption stops at
/// the first success, at the end of the budget, or when the outcomes run
/// out, whichever comes first.
pub open spec fn events_from(outcomes: Seq<bool>, made: nat) -> Seq<ProbeEvent>
    decreases outcomes.len(),
{
    if outcomes.len() == 0 || made >= BACKEND_MAX_ATTEMPTS {
        Seq::empty()
    } else if outcomes[0] || made + 1 >= BACKEND_MAX_ATTEMPTS {
        step_events(made, outcomes[0])
    } else {
        step_events(made, outcomes[0]) + events_from(outcomes.drop_first(), made + 1)
    }
}

/// All events a fresh prober emits for the outcome sequence `outcomes`.
pub open spec fn probe_events(outcomes: Seq<bool>) -> Seq<ProbeEvent> {
    events_from(outcomes, 0)
}

/// Whether `c` is an ASCII decimal digit.
pub open spec fn is_ascii_digit(c: char) -> bool {
    48 <= c as int && c as int <= 57
}

/// Whether the text that follows an HTTP status line's first space starts
/// with a three-digit status code of the 2xx class, delimited by a space
/// or by the end of the line.
pub open spec fn spec_code_is_2xx(rest: Seq<char>) -> bool {
    &&& rest.len() >= 3
    &&& rest[0] == '2'
    &&& is_ascii_digit(rest[1])
    &&& is_ascii_digit(rest[2])
    &&& (rest.len() == 3 || rest[3] == ' ')
}

/// Whether an HTTP status line reports success: the status code, which
/// stands after the line's first space, is in the 2xx class.
pub open spec fn spec_status_line_success(line: Seq<char>) -> bool
    decreases line.len(),
{
    if line.len() == 0 {
        false
    } else if line[0] == ' ' {
        spec_code_is_2xx(line.drop_first())
    } else {
        spec_status_line_success(line.drop_first())
    }
}

/// Scanning past space-free text does not change what the line reports.
proof fn lemma_success_skips_version(line: Seq<char>, i: int)
    requires
        0 <= i <= line.len(),
        forall|j: int| 0 <= j < i ==> line[j] != ' ',
    ensures
        spec_status_line_success(line) == spec_status_line_success(line.skip(i)),
    decreases i,
{
    if i == 0 {
        assert(line.skip(0) =~= line);
    } else {
        assert(line.drop_first() =~= line.skip(1));
        assert forall|j: int| 0 <= j < i - 1 implies line.skip(1)[j] != ' ' by {
            assert(line.skip(1)[j] == line[j + 1]);
        }
        lemma_success_skips_version(line.skip(1), i - 1);
        assert(line.skip(1).skip(i - 1) =~= line.skip(i));
    }
}

/// Classifies one HTTP status line: the health check succeeds exactly
/// when the status code after the first space is in the 2xx class; any
/// other line counts as a failed attempt.
pub fn status_line_indicates_success(line: &str) -> (ok: bool)
    ensures
        ok == spec_status_line_success(line@),
{
    let n = line.unicode_len();
    let mut i: usize = 0;
    let mut found = false;
    while !found && i < n
        invariant
            i <= n,
            n == line@.len(),
            forall|j: int| 0 <= j < i ==> line@[j] != ' ',
            found ==> i < n && line@[i as int] == ' ',
        decreases n - i, (if found { 0int } else { 1int }),
    {
        if line.get_char(i) == ' ' {
            found = true;
        } else {
            i = i + 1;
        }
    }
    proof {
        lemma_success_skips_version(line@, i as int);
    }
    if !found {
        proof {
            assert(line@.skip(i as int) =~= Seq::<char>::empty());
        }
        return false;
    }
    proof {
        assert(line@.skip(i as int)[0] == line@[i as int]);
        assert(line@.skip(i as int).drop_first() =~= line@.skip(i as int + 1));
    }
    let rest_len = n - i - 1;
    if rest_len < 3 {
        return false;
    }
    proof {
        assert(line@.skip(i as int + 1)[0] == line@[i as int + 1]);
        assert(line@.skip(i as int + 1)[1] == line@[i as int + 2]);
        assert(line@.skip(i as int + 1)[2] == line@[i as int + 3]);
        if rest_len > 3 {
            assert(line@.skip(i as int + 1)[3] == line@[i as int + 4]);
        }
    }
    let d1 = line.get_char(i + 2) as u32;
    let d2 = line.get_char(i + 3) as u32;
    let delimited = rest_len == 3 || line.get_char(i + 4) == ' ';
    line.get_char(i + 1) == '2' && 48 <= d1 && d1 <= 57 && 48 <= d2 && d2 <= 57 && delimited
}

/// Whether some event in `events` reports readiness.
pub open spec fn has_ready(events: Seq<ProbeEvent>) -> bool {
    exists|i: int| 0 <= i < events.len() && events[i] is Ready
}

/// Whether some event in `events` reports a readiness failure.
pub open spec fn has_error(events: Seq<ProbeEvent>) -> bool {
    exists|i: int| 0 <= i < events.len() && events[i] is Error
}

/// Helper for [`lemma_first_success`], generalised over a prober that
/// already has `made` failed attempts behind it: if outcome `j` is the
/// first success and it still falls within the budget, the prober emits
/// one Waiting per failure and then exactly one Ready.
proof fn lemma_events_first_success(outcomes: Seq<bool>, made: nat, j: int)
    requires
        0 <= j < outcomes.len(),
        made + j + 1 <= BACKEND_MAX_ATTEMPTS,
        outcomes[j],
        forall|i: int| 0 <= i < j ==> !outcomes[i],
    ensures
        events_from(outcomes, made).len() == j + 1,
        forall|i: int| 0 <= i < j ==> events_from(outcomes, made)[i]
            == ProbeEvent::Waiting((made + i + 1) as u32),
        events_from(outcomes, made)[j] == ProbeEvent::Ready((made + j + 1) as u32),
    decreases j,
{
    if j == 0 {
        assert(events_from(outcomes, made) =~= step_events(made, true));
    } else {
        lemma_events_first_success(outcomes.drop_first(), made + 1, j - 1);
    }
}

/// For any sequence of health-check outcomes whose first success is
/// attempt `k` within the budget, the prober emits exactly
/// `Waiting(1), .., Waiting(k-1)` followed by exactly one `Ready(k)`,
/// and no `Error` event.
pub proof fn lemma_first_success(outcomes: Seq<bool>, k: int)
    requires
        1 <= k <= BACKEND_MAX_ATTEMPTS,
        k <= outcomes.len(),
        outcomes[k - 1],
        forall|i: int| 0 <= i < k - 1 ==> !outcomes[i],
    ensures
        probe_events(outcomes).len() == k,
        forall|i: int| 0 <= i < k - 1 ==> probe_events(outcomes)[i]
            == ProbeEvent::Waiting((i + 1) as u32),
        probe_events(outcomes)[k - 1] == ProbeEvent::Ready(k as u32),
        !has_error(probe_events(outcomes)),
{
    lemma_events_first_success(outcomes, 0, k - 1);
}

/// Helper for [`lemma_budget_exhausted`], generalised over a prober that
/// already has `made` failed attempts behind it.
proof fn lemma_events_budget_exhausted(outcomes: Seq<bool>, made: nat)
    requires
        made < BACKEND_MAX_ATTEMPTS,
        made + outcomes.len() >= BACKEND_MAX_ATTEMPTS,
        forall|i: int| 0 <= i < BACKEND_MAX_ATTEMPTS - made ==> !outcomes[i],
    ensures
        events_from(outcomes, made).len() == BACKEND_MAX_ATTEMPTS - made + 1,
        forall|i: int| 0 <= i < BACKEND_MAX_ATTEMPTS - made ==> events_from(outcomes, made)[i]
            == ProbeEvent::Waiting((made + i + 1) as u32),
        events_from(outcomes, made)[BACKEND_MAX_ATTEMPTS - made] == ProbeEvent::Error,
    decreases BACKEND_MAX_ATTEMPTS - made,
{
    if made + 1 == BACKEND_MAX_ATTEMPTS {
        assert(events_from(outcomes, made) =~= step_events(made, false));
    } else {
        lemma_events_budget_exhausted(outcomes.drop_first(), made + 1);
    }
}

/// If every attempt in the budget fails, the prober emits exactly
/// `Waiting(1), .., Waiting(BACKEND_MAX_ATTEMPTS)` followed by exactly one
/// `Error` event, and never emits `Ready`.
pub proof fn lemma_budget_exhausted(outcomes: Seq<bool>)
    requires
        outcomes.len() >= BACKEND_MAX_ATTEMPTS,
        forall|i: int| 0 <= i < BACKEND_MAX_ATTEMPTS ==> !outcomes[i],
    ensures
        probe_events(outcomes).len() == BACKEND_MAX_ATTEMPTS + 1,
        forall|i: int| 0 <= i < BACKEND_MAX_ATTEMPTS ==> probe_events(outcomes)[i]
            == ProbeEvent::Waiting((i + 1) as u32),
        probe_events(outcomes)[BACKEND_MAX_ATTEMPTS as int] == ProbeEvent::Error,
        !has_ready(probe_events(outcomes)),
{
    lemma_events_budget_exhausted(outcomes, 0);
}

/// Helper for [`lemma_ready_error_exclusive`], generalised over the
/// attempts already made.
proof fn lemma_events_exclusive(outcomes: Seq<bool>, made: nat)
    ensures
        !(has_ready(events_from(outcomes, made)) && has_error(events_from(outcomes, made))),
    decreases outcomes.len(),
{
    let es = events_from(outcomes, made);
    if outcomes.len() == 0 || made >= BACKEND_MAX_ATTEMPTS {
    } else if outcomes[0] {
        assert(forall|i: int| 0 <= i < es.len() ==> es[i] !is Error);
    } else if made + 1 >= BACKEND_MAX_ATTEMPTS {
        assert(forall|i: int| 0 <= i < es.len() ==> es[i] !is Ready);
    } else {
        let rest = events_from(outcomes.drop_first(), made + 1);
        lemma_events_exclusive(outcomes.drop_first(), made + 1);
        if has_ready(es) && has_error(es) {
            let i = choose|i: int| 0 <= i < es.len() && es[i] is Ready;
            assert(0 <= i - 1 < rest.len() && rest[i - 1] is Ready);
            let j = choose|j: int| 0 <= j < es.len() && es[j] is Error;
            assert(0 <= j - 1 < rest.len() && rest[j - 1] is Error);
        }
    }
}

/// One generation never reports both readiness and failure: whatever the
/// health checks returned, the prober's events never contain both a
/// `Ready` and an `Error`.
pub proof fn lemma_ready_error_exclusive(outcomes: Seq<bool>)
    ensures
        !(has_ready(probe_events(outcomes)) && has_error(probe_events(outcomes))),
{
    lemma_events_exclusive(outcomes, 0);
}

/// What one call of [`Prober::step`] asks of the caller: the events to
/// deliver to the relay, and whether another poll is due after the
/// inter-poll pause.
pub struct StepResult {
    pub events: Vec<ProbeEvent>,
    pub poll_again: bool,
}

/// The readiness prober of one generation.
#[derive(Debug, Clone, Copy, PartialEq, Eq)]
pub struct Prober {
    pub state: ReadinessState,
}

impl Prober {
    /// A fresh prober that has made no attempt yet.
    pub fn new() -> (p: Prober)
        ensures
            p.state == ReadinessState::Starting,
    {
        Prober { state: ReadinessState::Starting }
    }

    /// Consumes the outcome of one health check and reports which events
    /// to emit and whether to poll again.  Must not be called once the
    /// prober is terminal: terminal states are absorbing and emit nothing.
    pub fn step(&mut self, success: bool) -> (r: StepResult)
        requires
            old(self).state.wf(),
            !old(self).state.is_terminal(),
        ensures
            final(self).state.wf(),
            final(self).state == step_state(old(self).state.attempts_made(), success),
            r.events@ == step_events(old(self).state.attempts_made(), success),
            r.poll_again == !final(self).state.is_terminal(),
    {
        let made: u32 = match self.state {
            ReadinessState::Starting => 0,
            ReadinessState::Waiting { attempts } => attempts,
            ReadinessState::Ready { attempt } => attempt,
            ReadinessState::Failed => BACKEND_MAX_ATTEMPTS,
        };
        let attempt = made + 1;
        let mut events: Vec<ProbeEvent> = Vec::new();
        if success {
            self.state = ReadinessState::Ready { attempt };
            events.push(ProbeEvent::Ready(attempt));
            proof {
                assert(events@ =~= step_events(old(self).state.attempts_made(), true));
            }
            StepResult { events, poll_again: false }
        } else if attempt == BACKEND_MAX_ATTEMPTS {
            self.state = ReadinessState::Failed;
            events.push(ProbeEvent::Waiting(attempt));
            events.push(ProbeEvent::Error);
            proof {
                assert(events@ =~= step_events(old(self).state.attempts_made(), false));
            }
            StepResult { events, poll_again: false }
        } else {
            self.state = ReadinessState::Waiting { attempts: attempt };
            events.push(ProbeEvent::Waiting(attempt));
            proof {
                assert(events@ =~= step_events(old(self).state.attempts_made(), false));
            }
            StepResult { events, poll_again: true }
        }
    }
}

/// Replays a recorded sequence of health-check outcomes through a fresh
/// prober and collects everything it emits, exactly as the live poll loop
/// would deliver it.
pub fn run_probe(outcomes: &Vec<bool>) -> (events: Vec<ProbeEvent>)
    ensures
        events@ == probe_events(outcomes@),
{
    let mut prober = Prober::new();
    let mut events: Vec<ProbeEvent> = Vec::new();
    let mut i: usize = 0;
    let mut done = false;
    proof {
        assert(outcomes@.skip(0) =~= outcomes@);
        assert(Seq::<ProbeEvent>::empty() + probe_events(outcomes@) =~= probe_events(outcomes@));
    }
    while !done && i < outcomes.len()
        invariant
            i <= outcomes.len(),
            !done ==> prober.state.wf(),
            !done ==> !prober.state.is_terminal(),
            !done ==> prober.state.attempts_made() == i,
            !done ==> events@ + events_from(outcomes@.skip(i as int), i as nat)
                == probe_events(outcomes@),
            done ==> events@ == probe_events(outcomes@),
        decreases outcomes.len() - i,
    {
        proof {
            assert(outcomes@.skip(i as int)[0] == outcomes@[i as int]);
            assert(outcomes@.skip(i as int).drop_first() =~= outcomes@.skip(i as int + 1));
        }
        let mut r = prober.step(outcomes[i]);
        events.append(&mut r.events);
        if !r.poll_again {
            done = true;
            proof {
                assert(events@ + Seq::<ProbeEvent>::empty() =~= events@);
            }
        }
        i = i + 1;
    }
    proof {
        if !done {
            assert(outcomes@.skip(i as int) =~= Seq::<bool>::empty());
            assert(events@ + Seq::<ProbeEvent>::empty() =~= events@);
        }
    }
    events
}

} // verus!
