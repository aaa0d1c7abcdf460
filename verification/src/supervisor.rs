//! Start-up supervision of the sidecar server, as a machine from state and
//! event to next state and action. The caller performs each action (probing a
//! port, spawning the sidecar, sleeping, reading the log, killing the child)
//! and hands back what came of it.
//!
//! The machine first probes the port the window was given; when a server
//! already answers there, nothing is spawned. Otherwise it makes up to
//! `STARTUP_ATTEMPTS` attempts: spawn the sidecar on a freshly chosen port,
//! probe it every `POLL_INTERVAL_MS` for `FIRST_WAIT_MS`; if it is not up,
//! read the log, and unless the log reports that the port could not be taken,
//! keep probing for another `EXTENDED_WAIT_MS`; when it is still not up, kill
//! the child, pause, and try again.
//!
//! The window is told only the port it was given at the start; when an attempt
//! spawns the sidecar on another port, the window is not told of it.

use crate::logs::{bind_failure_reported, reports_bind_failure};
use vstd::prelude::*;

verus! {

/// How many times the sidecar is spawned before start-up gives up.
pub const STARTUP_ATTEMPTS: u32 = 6;

/// How long a freshly spawned sidecar is first given to come up.
pub const FIRST_WAIT_MS: u64 = 3000;

/// How much longer it is given when its log reports no port failure.
pub const EXTENDED_WAIT_MS: u64 = 4000;

/// The pause between two probes, and after killing a failed sidecar.
pub const POLL_INTERVAL_MS: u64 = 100;

/// Where start-up stands.
#[derive(Clone, Copy, PartialEq, Eq, Structural, Debug)]
pub enum Phase {
    /// Waiting for the probe of the port that a running server may already hold.
    CheckingExisting,
    /// Waiting for the sidecar to be spawned.
    Spawning,
    /// Waiting for the first window's deadline to be armed.
    FirstArming,
    /// Waiting to learn whether the first window has passed.
    FirstCheck,
    /// Waiting for a probe inside the first window.
    FirstProbe,
    /// Waiting for the pause after a failed probe inside the first window.
    FirstPause,
    /// Waiting for the server's log.
    ReadingLogs,
    /// Waiting for the extended window's deadline to be armed.
    ExtendedArming,
    /// Waiting to learn whether the extended window has passed.
    ExtendedCheck,
    /// Waiting for a probe inside the extended window.
    ExtendedProbe,
    /// Waiting for the pause after a failed probe inside the extended window.
    ExtendedPause,
    /// Waiting for the failed sidecar to be killed.
    Killing,
    /// Waiting for the pause after the kill.
    Backoff,
    /// Start-up is over.
    Finished { keep_child: bool, ok: bool },
}

/// What the caller is asked to do next.
#[derive(Clone, Copy, PartialEq, Eq, Structural, Debug)]
pub enum Action {
    /// Find out whether a server answers on this port; answer with `Event::Probed`.
    Probe(u32),
    /// Choose a port and spawn the sidecar on it; answer with `Event::Spawned`.
    SpawnSidecar,
    /// Start a deadline this many milliseconds from now; answer with `Event::Ack`.
    ArmDeadline(u64),
    /// Say whether the armed deadline has passed; answer with `Event::Deadline`.
    CheckDeadline,
    /// Sleep this many milliseconds; answer with `Event::Ack`.
    Sleep(u64),
    /// Read the server's log; answer with `Event::Logs`.
    ReadLogs,
    /// Kill the child spawned last; answer with `Event::Ack`.
    KillChild,
    /// Start-up is over: keep the child spawned last (or none), and report
    /// success or failure.
    Finish { keep_child: bool, ok: bool },
}

/// What came of the last action.
#[derive(Debug)]
pub enum Event {
    Probed(bool),
    Spawned(u32),
    Ack,
    Deadline { expired: bool },
    Logs(String),
}

/// The state of start-up supervision.
#[derive(Clone, Copy, PartialEq, Eq, Structural, Debug)]
pub struct Supervisor {
    pub phase: Phase,
    /// How many spawned sidecars have failed and been killed.
    pub attempt: u32,
    /// The port of the sidecar spawned last (before any spawn: the probed port).
    pub port: u32,
}

/// Whether `phase` expects `event` as the outcome of its action.
pub open spec fn accepts(phase: Phase, event: Event) -> bool {
    match phase {
        Phase::CheckingExisting | Phase::FirstProbe | Phase::ExtendedProbe => event is Probed,
        Phase::Spawning => event is Spawned,
        Phase::FirstCheck | Phase::ExtendedCheck => event is Deadline,
        Phase::ReadingLogs => event is Logs,
        Phase::FirstArming | Phase::FirstPause | Phase::ExtendedArming | Phase::ExtendedPause
        | Phase::Killing | Phase::Backoff => event is Ack,
        Phase::Finished { .. } => false,
    }
}

/// The state a supervisor steps into, with the action it asks for, when
/// `event` comes in (for an event that its phase accepts).
pub open spec fn step(s: Supervisor, event: Event) -> (Supervisor, Action) {
    match (s.phase, event) {
        (Phase::CheckingExisting, Event::Probed(up)) => if up {
            (
                Supervisor { phase: Phase::Finished { keep_child: false, ok: true }, ..s },
                Action::Finish { keep_child: false, ok: true },
            )
        } else {
            (Supervisor { phase: Phase::Spawning, attempt: 0, ..s }, Action::SpawnSidecar)
        },
        (Phase::Spawning, Event::Spawned(p)) => (
            Supervisor { phase: Phase::FirstArming, port: p, ..s },
            Action::ArmDeadline(FIRST_WAIT_MS),
        ),
        (Phase::FirstArming, Event::Ack) => (
            Supervisor { phase: Phase::FirstCheck, ..s },
            Action::CheckDeadline,
        ),
        (Phase::FirstCheck, Event::Deadline { expired }) => if expired {
            (Supervisor { phase: Phase::ReadingLogs, ..s }, Action::ReadLogs)
        } else {
            (Supervisor { phase: Phase::FirstProbe, ..s }, Action::Probe(s.port))
        },
        (Phase::FirstProbe, Event::Probed(up)) => if up {
            (
                Supervisor { phase: Phase::Finished { keep_child: true, ok: true }, ..s },
                Action::Finish { keep_child: true, ok: true },
            )
        } else {
            (Supervisor { phase: Phase::FirstPause, ..s }, Action::Sleep(POLL_INTERVAL_MS))
        },
        (Phase::FirstPause, Event::Ack) => (
            Supervisor { phase: Phase::FirstCheck, ..s },
            Action::CheckDeadline,
        ),
        (Phase::ReadingLogs, Event::Logs(text)) => if reports_bind_failure(text@) {
            (Supervisor { phase: Phase::Killing, ..s }, Action::KillChild)
        } else {
            (
                Supervisor { phase: Phase::ExtendedArming, ..s },
                Action::ArmDeadline(EXTENDED_WAIT_MS),
            )
        },
        (Phase::ExtendedArming, Event::Ack) => (
            Supervisor { phase: Phase::ExtendedCheck, ..s },
            Action::CheckDeadline,
        ),
        (Phase::ExtendedCheck, Event::Deadline { expired }) => if expired {
            (Supervisor { phase: Phase::Killing, ..s }, Action::KillChild)
        } else {
            (Supervisor { phase: Phase::ExtendedProbe, ..s }, Action::Probe(s.port))
        },
        (Phase::ExtendedProbe, Event::Probed(up)) => if up {
            (
                Supervisor { phase: Phase::Finished { keep_child: true, ok: true }, ..s },
                Action::Finish { keep_child: true, ok: true },
            )
        } else {
            (Supervisor { phase: Phase::ExtendedPause, ..s }, Action::Sleep(POLL_INTERVAL_MS))
        },
        (Phase::ExtendedPause, Event::Ack) => (
            Supervisor { phase: Phase::ExtendedCheck, ..s },
            Action::CheckDeadline,
        ),
        (Phase::Killing, Event::Ack) => (
            Supervisor { phase: Phase::Backoff, attempt: (s.attempt + 1) as u32, ..s },
            Action::Sleep(POLL_INTERVAL_MS),
        ),
        (Phase::Backoff, Event::Ack) => if s.attempt < STARTUP_ATTEMPTS {
            (Supervisor { phase: Phase::Spawning, ..s }, Action::SpawnSidecar)
        } else {
            (
                Supervisor { phase: Phase::Finished { keep_child: false, ok: false }, ..s },
                Action::Finish { keep_child: false, ok: false },
            )
        },
        _ => (s, Action::Finish { keep_child: false, ok: false }),
    }
}

/// The states that supervision can reach: the attempt count stays within
/// `STARTUP_ATTEMPTS`, and while a sidecar is on trial fewer than
/// `STARTUP_ATTEMPTS` have failed.
pub open spec fn reachable(s: Supervisor) -> bool {
    match s.phase {
        Phase::CheckingExisting => s.attempt == 0,
        Phase::Backoff => 1 <= s.attempt <= STARTUP_ATTEMPTS,
        Phase::Finished { keep_child, ok } => (keep_child ==> ok) && s.attempt <= STARTUP_ATTEMPTS,
        _ => s.attempt < STARTUP_ATTEMPTS,
    }
}

/// Whether a spawned sidecar that has been neither kept nor killed is alive in `phase`.
pub open spec fn child_on_trial(phase: Phase) -> bool {
    match phase {
        Phase::FirstArming | Phase::FirstCheck | Phase::FirstProbe | Phase::FirstPause
        | Phase::ReadingLogs | Phase::ExtendedArming | Phase::ExtendedCheck
        | Phase::ExtendedProbe | Phase::ExtendedPause | Phase::Killing => true,
        _ => false,
    }
}

/// How many more times the sidecar may still be spawned from state `s`.
pub open spec fn spawn_budget(s: Supervisor) -> int {
    match s.phase {
        Phase::CheckingExisting => STARTUP_ATTEMPTS as int,
        Phase::Backoff => STARTUP_ATTEMPTS - s.attempt,
        Phase::Finished { .. } => 0,
        _ => STARTUP_ATTEMPTS - s.attempt - 1,
    }
}

/// Whether every event of `events` is accepted by the state it comes to.
pub open spec fn accepted_run(s: Supervisor, events: Seq<Event>) -> bool
    decreases events.len(),
{
    if events.len() == 0 {
        true
    } else {
        accepts(s.phase, events[0]) && accepted_run(step(s, events[0]).0, events.drop_first())
    }
}

/// How many times a run of `events` from `s` asks for the sidecar to be spawned.
pub open spec fn spawns_requested(s: Supervisor, events: Seq<Event>) -> nat
    decreases events.len(),
{
    if events.len() == 0 {
        0
    } else {
        let (next, action) = step(s, events[0]);
        (if action == Action::SpawnSidecar { 1nat } else { 0nat }) + spawns_requested(
            next,
            events.drop_first(),
        )
    }
}

impl Supervisor {
    /// Supervision of a start-up whose window was given `port`: the first
    /// action asks whether a server already answers on it.
    pub fn new(port: u32) -> (r: (Supervisor, Action))
        ensures
            r.0 == (Supervisor { phase: Phase::CheckingExisting, attempt: 0, port }),
            r.1 == Action::Probe(port),
            reachable(r.0),
    {
        (Supervisor { phase: Phase::CheckingExisting, attempt: 0, port }, Action::Probe(port))
    }

    /// Whether this supervisor is in a state that supervision can reach.
    pub fn is_reachable(&self) -> (b: bool)
        ensures
            b == reachable(*self),
    {
        match self.phase {
            Phase::CheckingExisting => self.attempt == 0,
            Phase::Backoff => 1 <= self.attempt && self.attempt <= STARTUP_ATTEMPTS,
            Phase::Finished { keep_child, ok } => (!keep_child || ok) && self.attempt
                <= STARTUP_ATTEMPTS,
            _ => self.attempt < STARTUP_ATTEMPTS,
        }
    }

    /// Whether the current phase expects `event`.
    pub fn accepts_event(&self, event: &Event) -> (b: bool)
        ensures
            b == accepts(self.phase, *event),
    {
        match (self.phase, event) {
            (Phase::CheckingExisting, Event::Probed(_)) => true,
            (Phase::FirstProbe, Event::Probed(_)) => true,
            (Phase::ExtendedProbe, Event::Probed(_)) => true,
            (Phase::Spawning, Event::Spawned(_)) => true,
            (Phase::FirstCheck, Event::Deadline { .. }) => true,
            (Phase::ExtendedCheck, Event::Deadline { .. }) => true,
            (Phase::ReadingLogs, Event::Logs(_)) => true,
            (Phase::FirstArming, Event::Ack) => true,
            (Phase::FirstPause, Event::Ack) => true,
            (Phase::ExtendedArming, Event::Ack) => true,
            (Phase::ExtendedPause, Event::Ack) => true,
            (Phase::Killing, Event::Ack) => true,
            (Phase::Backoff, Event::Ack) => true,
            _ => false,
        }
    }

    /// Takes in what came of the last action and asks for the next one.
    pub fn advance(&mut self, event: &Event) -> (action: Action)
        requires
            accepts(old(self).phase, *event),
            reachable(*old(self)),
        ensures
            (*final(self), action) == step(*old(self), *event),
            reachable(*final(self)),
    {
        let s = *self;
        let (next, action) = match (s.phase, event) {
            (Phase::CheckingExisting, Event::Probed(up)) => if *up {
                (
                    Supervisor { phase: Phase::Finished { keep_child: false, ok: true }, ..s },
                    Action::Finish { keep_child: false, ok: true },
                )
            } else {
                (Supervisor { phase: Phase::Spawning, attempt: 0, ..s }, Action::SpawnSidecar)
            },
            (Phase::Spawning, Event::Spawned(p)) => (
                Supervisor { phase: Phase::FirstArming, port: *p, ..s },
                Action::ArmDeadline(FIRST_WAIT_MS),
            ),
            (Phase::FirstArming, Event::Ack) => (
                Supervisor { phase: Phase::FirstCheck, ..s },
                Action::CheckDeadline,
            ),
            (Phase::FirstCheck, Event::Deadline { expired }) => if *expired {
                (Supervisor { phase: Phase::ReadingLogs, ..s }, Action::ReadLogs)
            } else {
                (Supervisor { phase: Phase::FirstProbe, ..s }, Action::Probe(s.port))
            },
            (Phase::FirstProbe, Event::Probed(up)) => if *up {
                (
                    Supervisor { phase: Phase::Finished { keep_child: true, ok: true }, ..s },
                    Action::Finish { keep_child: true, ok: true },
                )
            } else {
                (Supervisor { phase: Phase::FirstPause, ..s }, Action::Sleep(POLL_INTERVAL_MS))
            },
            (Phase::FirstPause, Event::Ack) => (
                Supervisor { phase: Phase::FirstCheck, ..s },
                Action::CheckDeadline,
            ),
            (Phase::ReadingLogs, Event::Logs(text)) => if bind_failure_reported(text.as_str()) {
                (Supervisor { phase: Phase::Killing, ..s }, Action::KillChild)
            } else {
                (
                    Supervisor { phase: Phase::ExtendedArming, ..s },
                    Action::ArmDeadline(EXTENDED_WAIT_MS),
                )
            },
            (Phase::ExtendedArming, Event::Ack) => (
                Supervisor { phase: Phase::ExtendedCheck, ..s },
                Action::CheckDeadline,
            ),
            (Phase::ExtendedCheck, Event::Deadline { expired }) => if *expired {
                (Supervisor { phase: Phase::Killing, ..s }, Action::KillChild)
            } else {
                (Supervisor { phase: Phase::ExtendedProbe, ..s }, Action::Probe(s.port))
            },
            (Phase::ExtendedProbe, Event::Probed(up)) => if *up {
                (
                    Supervisor { phase: Phase::Finished { keep_child: true, ok: true }, ..s },
                    Action::Finish { keep_child: true, ok: true },
                )
            } else {
                (
                    Supervisor { phase: Phase::ExtendedPause, ..s },
                    Action::Sleep(POLL_INTERVAL_MS),
                )
            },
            (Phase::ExtendedPause, Event::Ack) => (
                Supervisor { phase: Phase::ExtendedCheck, ..s },
                Action::CheckDeadline,
            ),
            (Phase::Killing, Event::Ack) => (
                Supervisor { phase: Phase::Backoff, attempt: s.attempt + 1, ..s },
                Action::Sleep(POLL_INTERVAL_MS),
            ),
            (Phase::Backoff, Event::Ack) => if s.attempt < STARTUP_ATTEMPTS {
                (Supervisor { phase: Phase::Spawning, ..s }, Action::SpawnSidecar)
            } else {
                (
                    Supervisor { phase: Phase::Finished { keep_child: false, ok: false }, ..s },
                    Action::Finish { keep_child: false, ok: false },
                )
            },
            _ => (s, Action::Finish { keep_child: false, ok: false }),
        };
        *self = next;
        action
    }
}

/// The result that start-up reports for `ok`: success, or, when every attempt
/// failed, the error text that start-up begins with and that no attempt
/// replaces (`no attempt made`).
pub fn startup_result(ok: bool) -> (r: Result<(), String>)
    ensures
        ok ==> r is Ok,
        !ok ==> (r matches Err(e) && e@ == "no attempt made"@),
{
    if ok {
        Ok(())
    } else {
        proof {
            reveal_strlit("no attempt made");
        }
        let mut e = String::new();
        e.append("no attempt made");
        Err(e)
    }
}

/// Every accepted step stays among the reachable states, and a finished
/// supervisor accepts nothing more.
pub proof fn lemma_step_stays_reachable(s: Supervisor, event: Event)
    requires
        reachable(s),
        accepts(s.phase, event),
    ensures
        reachable(step(s, event).0),
        !(s.phase is Finished),
{
}

/// A spawn is asked for only while fewer than `STARTUP_ATTEMPTS` sidecars have
/// failed, and only when no earlier sidecar is still on trial.
pub proof fn lemma_spawn_only_within_attempts(s: Supervisor, event: Event)
    requires
        reachable(s),
        accepts(s.phase, event),
        step(s, event).1 == Action::SpawnSidecar,
    ensures
        s.attempt < STARTUP_ATTEMPTS,
        !child_on_trial(s.phase),
        step(s, event).0.phase == Phase::Spawning,
{
}

/// Each spawned sidecar is either kept as the running server or killed: a step
/// that ends a sidecar's trial either hands it over (`Finish` with
/// `keep_child`) or is the acknowledgement of its kill.
pub proof fn lemma_no_abandoned_child(s: Supervisor, event: Event)
    requires
        reachable(s),
        accepts(s.phase, event),
        child_on_trial(s.phase),
        !child_on_trial(step(s, event).0.phase),
    ensures
        step(s, event).1 == (Action::Finish { keep_child: true, ok: true }) || (s.phase
            == Phase::Killing && event is Ack),
{
}

/// A sidecar is kept, and start-up reports success, only when a probe of its
/// port found it answering; success without a sidecar comes only from a server
/// that already answered before any spawn.
pub proof fn lemma_success_only_after_answer(s: Supervisor, event: Event)
    requires
        reachable(s),
        accepts(s.phase, event),
        step(s, event).1 matches Action::Finish { ok, .. } && ok,
    ensures
        event == Event::Probed(true),
        step(s, event).1 == (Action::Finish { keep_child: true, ok: true }) <==> (s.phase
            == Phase::FirstProbe || s.phase == Phase::ExtendedProbe),
        step(s, event).1 == (Action::Finish { keep_child: false, ok: true }) <==> s.phase
            == Phase::CheckingExisting,
{
}

/// Start-up gives up only after `STARTUP_ATTEMPTS` sidecars have failed and
/// been killed.
pub proof fn lemma_failure_only_after_all_attempts(s: Supervisor, event: Event)
    requires
        reachable(s),
        accepts(s.phase, event),
        step(s, event).1 == (Action::Finish { keep_child: false, ok: false }),
    ensures
        s.phase == Phase::Backoff,
        s.attempt == STARTUP_ATTEMPTS,
{
}

/// When a server already answers on the port, nothing is spawned.
pub proof fn lemma_running_server_is_reused(port: u32)
    ensures
        step(Supervisor { phase: Phase::CheckingExisting, attempt: 0, port }, Event::Probed(true))
            == ((
            Supervisor { phase: Phase::Finished { keep_child: false, ok: true }, attempt: 0, port },
            Action::Finish { keep_child: false, ok: true },
        )),
{
}

proof fn lemma_spawns_within_budget(s: Supervisor, events: Seq<Event>)
    requires
        reachable(s),
        accepted_run(s, events),
    ensures
        spawns_requested(s, events) <= spawn_budget(s),
        spawn_budget(s) >= 0,
    decreases events.len(),
{
    if events.len() > 0 {
        let (next, action) = step(s, events[0]);
        lemma_step_stays_reachable(s, events[0]);
        lemma_spawns_within_budget(next, events.drop_first());
    }
}

/// However the probes, deadlines and logs turn out, one start-up asks for the
/// sidecar to be spawned at most `STARTUP_ATTEMPTS` times.
pub proof fn lemma_at_most_six_spawns(port: u32, events: Seq<Event>)
    requires
        accepted_run(Supervisor { phase: Phase::CheckingExisting, attempt: 0, port }, events),
    ensures
        spawns_requested(Supervisor { phase: Phase::CheckingExisting, attempt: 0, port }, events)
            <= STARTUP_ATTEMPTS,
{
    lemma_spawns_within_budget(Supervisor { phase: Phase::CheckingExisting, attempt: 0, port }, events);
}


/// While a sidecar is on trial, a probe that finds no server is followed by a
/// pause of 100 ms in the same window, and a window whose deadline has not
/// passed goes on probing the sidecar's port: neither leads to a kill.
pub proof fn lemma_keeps_polling_until_deadline(s: Supervisor, event: Event)
    requires
        reachable(s),
        accepts(s.phase, event),
    ensures
        s.phase == Phase::FirstProbe && event == Event::Probed(false) ==> step(s, event) == (
        Supervisor { phase: Phase::FirstPause, ..s },
        Action::Sleep(100),
        ),
        s.phase == Phase::ExtendedProbe && event == Event::Probed(false) ==> step(s, event) == (
        Supervisor { phase: Phase::ExtendedPause, ..s },
        Action::Sleep(100),
        ),
        s.phase == Phase::FirstCheck && event == (Event::Deadline { expired: false }) ==> step(
            s,
            event,
        ) == (Supervisor { phase: Phase::FirstProbe, ..s }, Action::Probe(s.port)),
        s.phase == Phase::ExtendedCheck && event == (Event::Deadline { expired: false }) ==> step(
            s,
            event,
        ) == (Supervisor { phase: Phase::ExtendedProbe, ..s }, Action::Probe(s.port)),
        (s.phase == Phase::FirstPause || s.phase == Phase::ExtendedPause) ==> step(s, event).1
            == Action::CheckDeadline,
{
}

/// A sidecar on trial is killed only when its log reports that it could not
/// take its port, or when the extended window's deadline has passed; the end
/// of the first window never kills it directly but leads to reading its log.
pub proof fn lemma_kill_only_after_port_failure_or_expiry(s: Supervisor, event: Event)
    requires
        reachable(s),
        accepts(s.phase, event),
    ensures
        step(s, event).1 == Action::KillChild ==> {
            ||| s.phase == Phase::ExtendedCheck && event == (Event::Deadline { expired: true })
            ||| s.phase == Phase::ReadingLogs && event is Logs && reports_bind_failure(
                event->Logs_0@,
            )
        },
        s.phase == Phase::FirstCheck && event == (Event::Deadline { expired: true }) ==> step(
            s,
            event,
        ).1 == Action::ReadLogs,
        (s.phase == Phase::ReadingLogs && event is Logs && !reports_bind_failure(event->Logs_0@))
            ==> step(s, event).1 == Action::ArmDeadline(4000),
        (s.phase == Phase::ReadingLogs && event is Logs && reports_bind_failure(event->Logs_0@))
            ==> step(s, event) == (Supervisor { phase: Phase::Killing, ..s }, Action::KillChild),
        s.phase == Phase::ExtendedCheck && event == (Event::Deadline { expired: true }) ==> step(
            s,
            event,
        ) == (Supervisor { phase: Phase::Killing, ..s }, Action::KillChild),
{
}

/// Start-up moves on as long as nothing has come up: when no server answers
/// before any spawn the sidecar is spawned, each armed deadline is followed by
/// a check of it, a sidecar that answers a probe is kept and start-up
/// succeeds, and after a kill a new sidecar is spawned while attempts remain.
pub proof fn lemma_start_up_moves_on(s: Supervisor, event: Event)
    requires
        reachable(s),
        accepts(s.phase, event),
    ensures
        s.phase == Phase::CheckingExisting && event == Event::Probed(false) ==> step(s, event) == (
        Supervisor { phase: Phase::Spawning, attempt: 0, port: s.port },
        Action::SpawnSidecar,
        ),
        (s.phase == Phase::FirstArming || s.phase == Phase::ExtendedArming) ==> step(s, event).1
            == Action::CheckDeadline,
        (s.phase == Phase::FirstProbe || s.phase == Phase::ExtendedProbe) && event == Event::Probed(
            true,
        ) ==> step(s, event) == (
        Supervisor { phase: Phase::Finished { keep_child: true, ok: true }, ..s },
        Action::Finish { keep_child: true, ok: true },
        ),
        s.phase == Phase::Backoff && s.attempt < 6 ==> step(s, event) == (
        Supervisor { phase: Phase::Spawning, ..s },
        Action::SpawnSidecar,
        ),
        s.phase == Phase::Backoff && s.attempt == 6 ==> step(s, event).1 == (Action::Finish {
            keep_child: false,
            ok: false,
        }),
{
}

/// A spawned sidecar gets a first window of 3000 ms, and every probe while it
/// is on trial goes to the port it was spawned on; each kill is counted as one
/// failed attempt.
pub proof fn lemma_trial_of_spawned_port(s: Supervisor, event: Event)
    requires
        reachable(s),
        accepts(s.phase, event),
    ensures
        event is Spawned ==> step(s, event).0.port == event->Spawned_0 && step(s, event).1
            == Action::ArmDeadline(3000) && step(s, event).0.attempt == s.attempt,
        step(s, event).1 is Probe ==> step(s, event).1->Probe_0 == s.port,
        s.phase == Phase::Killing ==> step(s, event).0.attempt == s.attempt + 1 && step(s, event).1
            == Action::Sleep(100),
{
}

} // verus!
