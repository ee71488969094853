//! The lifecycle of one simulated client, as a state machine.
//!
//! A worker never acts by itself. Its driver performs the action that the
//! last step asked for, waits until it has finished, looks at the stop flag
//! and at the connection, and hands what it saw to [`Worker::step`], which
//! answers with the next action. The stop flag is thus read at every loop
//! boundary and never interrupts an operation in flight.

use vstd::prelude::*;

verus! {

/// How long an idle client sleeps between two looks at its connection, in
/// milliseconds.
pub const HEARTBEAT_MILLIS: u64 = 1000;

/// How long a client waits before it tries a failed subscription again, and
/// between two looks at a lost connection, in milliseconds.
pub const RETRY_MILLIS: u64 = 10;

/// A warning is due at every this many looks at a lost connection.
pub const WARNING_PERIOD: u64 = 100;

/// What the clients of a run do once they are connected.
#[derive(Clone, Copy, Debug, PartialEq, Eq, Structural)]
pub enum Mode {
    /// Stay connected.
    Connect,
    /// Publish at the configured interval.
    Publish,
    /// Subscribe, then stay connected.
    Subscribe,
    /// Subscribe, then publish at the configured interval.
    Benchmark,
}

/// Where a worker stands: which of its actions is in flight.
#[derive(Clone, Copy, Debug, PartialEq, Eq, Structural)]
pub enum Phase {
    /// Just created, holding its permit; nothing was asked for yet.
    Created,
    /// A connection attempt is in flight.
    Connecting,
    /// The permit is being handed back.
    Releasing,
    /// A subscription is in flight.
    Subscribing,
    /// Asleep after a failed subscription.
    SubscribeBackoff,
    /// A publish is in flight.
    Publishing,
    /// Asleep between two rounds of the active loop.
    Pausing,
    /// Done. The worker asks for nothing any more.
    Stopped,
}

/// What a worker asks its driver to do next.
#[derive(Clone, Copy, Debug, PartialEq, Eq, Structural)]
pub enum Action {
    /// Connect to the broker.
    Connect,
    /// Hand the admission permit back.
    ReleasePermit,
    /// Subscribe to the worker's topic.
    Subscribe,
    /// Stamp the payload with the time and publish it.
    Publish,
    /// Sleep for so many milliseconds.
    Sleep { millis: u64 },
    /// Disconnect and end.
    Exit,
}

/// What the driver saw when the last action had finished.
#[derive(Clone, Copy, Debug, PartialEq, Eq, Structural)]
pub struct Observation {
    /// Whether the last action succeeded. Actions that cannot fail succeed.
    pub ok: bool,
    /// The stop flag of the run.
    pub stopped: bool,
    /// Whether the client is connected to the broker.
    pub connected: bool,
}

/// The answer of one step.
#[derive(Clone, Copy, Debug, PartialEq, Eq, Structural)]
pub struct Decision {
    /// What to do next.
    pub action: Action,
    /// Whether to warn that the client is disconnected.
    pub warn: bool,
}

/// One simulated client.
#[derive(Clone, Copy, Debug, PartialEq, Eq, Structural)]
pub struct Worker {
    /// What the client does once connected.
    pub mode: Mode,
    /// Where the client stands.
    pub phase: Phase,
    /// The pause between two publishes in milliseconds; zero for none.
    pub interval: u64,
    /// How often the client was found disconnected, wrapping around.
    pub warnings: u64,
}

impl Mode {
    /// Whether clients in this mode subscribe before they become active.
    pub open spec fn subscribes(self) -> bool {
        self == Mode::Subscribe || self == Mode::Benchmark
    }

    /// Whether active clients in this mode publish.
    pub open spec fn publishes(self) -> bool {
        self == Mode::Publish || self == Mode::Benchmark
    }

    /// Whether a failed publish ends the client.
    pub open spec fn gives_up_on_failure(self) -> bool {
        self == Mode::Publish
    }
}

impl Phase {
    /// Whether a worker in this phase holds its admission permit.
    pub open spec fn holds_permit(self) -> bool {
        self == Phase::Created || self == Phase::Connecting
    }

    /// How far a worker in this phase has come. No step leads back.
    pub open spec fn progress(self) -> int {
        match self {
            Phase::Created => 0,
            Phase::Connecting => 1,
            Phase::Releasing => 2,
            Phase::Subscribing => 3,
            Phase::SubscribeBackoff => 3,
            Phase::Publishing => 4,
            Phase::Pausing => 4,
            Phase::Stopped => 5,
        }
    }
}

/// A decision without a warning.
pub open spec fn plain(action: Action) -> Decision {
    Decision { action, warn: false }
}

/// The round of the active loop: stop if told to; while connected, publish
/// or idle for a heartbeat; while disconnected, count, warn at every
/// hundredth time from the first, and look again shortly.
pub open spec fn active_round(w: Worker, seen: Observation) -> (Worker, Decision) {
    if seen.stopped {
        (Worker { phase: Phase::Stopped, ..w }, plain(Action::Exit))
    } else if seen.connected {
        if w.mode.publishes() {
            (Worker { phase: Phase::Publishing, ..w }, plain(Action::Publish))
        } else {
            (
                Worker { phase: Phase::Pausing, ..w },
                plain(Action::Sleep { millis: HEARTBEAT_MILLIS }),
            )
        }
    } else {
        (
            Worker {
                phase: Phase::Pausing,
                warnings: if w.warnings == u64::MAX {
                    0
                } else {
                    (w.warnings + 1) as u64
                },
                ..w
            },
            Decision {
                action: Action::Sleep { millis: RETRY_MILLIS },
                warn: w.warnings % WARNING_PERIOD == 0,
            },
        )
    }
}

/// The round of the subscribe loop: stop if told to, else subscribe.
pub open spec fn subscribe_round(w: Worker, seen: Observation) -> (Worker, Decision) {
    if seen.stopped {
        (Worker { phase: Phase::Stopped, ..w }, plain(Action::Exit))
    } else {
        (Worker { phase: Phase::Subscribing, ..w }, plain(Action::Subscribe))
    }
}

/// The worker after one step, and what it asks for.
pub open spec fn next(w: Worker, seen: Observation) -> (Worker, Decision) {
    match w.phase {
        Phase::Created => if seen.stopped {
            (Worker { phase: Phase::Releasing, ..w }, plain(Action::ReleasePermit))
        } else {
            (Worker { phase: Phase::Connecting, ..w }, plain(Action::Connect))
        },
        Phase::Connecting => if seen.ok || seen.stopped {
            (Worker { phase: Phase::Releasing, ..w }, plain(Action::ReleasePermit))
        } else {
            (w, plain(Action::Connect))
        },
        Phase::Releasing => if w.mode.subscribes() {
            subscribe_round(w, seen)
        } else {
            active_round(w, seen)
        },
        Phase::Subscribing => if seen.ok {
            active_round(w, seen)
        } else {
            (
                Worker { phase: Phase::SubscribeBackoff, ..w },
                plain(Action::Sleep { millis: RETRY_MILLIS }),
            )
        },
        Phase::SubscribeBackoff => subscribe_round(w, seen),
        Phase::Publishing => if !seen.ok && w.mode.gives_up_on_failure() {
            (Worker { phase: Phase::Stopped, ..w }, plain(Action::Exit))
        } else if w.interval > 0 {
            (Worker { phase: Phase::Pausing, ..w }, plain(Action::Sleep { millis: w.interval }))
        } else {
            active_round(w, seen)
        },
        Phase::Pausing => active_round(w, seen),
        Phase::Stopped => (w, plain(Action::Exit)),
    }
}

impl Mode {
    /// Tells whether clients in this mode subscribe.
    pub fn has_subscription(self) -> (b: bool)
        ensures
            b == self.subscribes(),
    {
        match self {
            Mode::Subscribe => true,
            Mode::Benchmark => true,
            _ => false,
        }
    }

    /// Tells whether clients in this mode publish.
    pub fn has_publisher(self) -> (b: bool)
        ensures
            b == self.publishes(),
    {
        match self {
            Mode::Publish => true,
            Mode::Benchmark => true,
            _ => false,
        }
    }
}

impl Worker {
    /// A worker that has its permit and has not started yet.
    pub fn new(mode: Mode, interval: u64) -> (worker: Worker)
        ensures
            worker == (Worker { mode, phase: Phase::Created, interval, warnings: 0 }),
    {
        Worker { mode, phase: Phase::Created, interval, warnings: 0 }
    }

    /// Whether the worker has ended.
    pub fn is_stopped(&self) -> (b: bool)
        ensures
            b == (self.phase == Phase::Stopped),
    {
        match self.phase {
            Phase::Stopped => true,
            _ => false,
        }
    }

    /// Whether the worker holds its admission permit.
    pub fn holds_permit(&self) -> (b: bool)
        ensures
            b == self.phase.holds_permit(),
    {
        match self.phase {
            Phase::Created => true,
            Phase::Connecting => true,
            _ => false,
        }
    }

    fn stop_now(&mut self) -> (decision: Decision)
        ensures
            *final(self) == (Worker { phase: Phase::Stopped, ..*old(self) }),
            decision == plain(Action::Exit),
    {
        self.phase = Phase::Stopped;
        Decision { action: Action::Exit, warn: false }
    }

    fn enter_active_round(&mut self, seen: Observation) -> (decision: Decision)
        ensures
            (*final(self), decision) == active_round(*old(self), seen),
    {
        if seen.stopped {
            self.stop_now()
        } else if seen.connected {
            if self.mode.has_publisher() {
                self.phase = Phase::Publishing;
                Decision { action: Action::Publish, warn: false }
            } else {
                self.phase = Phase::Pausing;
                Decision { action: Action::Sleep { millis: HEARTBEAT_MILLIS }, warn: false }
            }
        } else {
            let warn: bool = self.warnings % WARNING_PERIOD == 0;
            self.warnings = self.warnings.wrapping_add(1);
            self.phase = Phase::Pausing;
            Decision { action: Action::Sleep { millis: RETRY_MILLIS }, warn }
        }
    }

    fn enter_subscribe_round(&mut self, seen: Observation) -> (decision: Decision)
        ensures
            (*final(self), decision) == subscribe_round(*old(self), seen),
    {
        if seen.stopped {
            self.stop_now()
        } else {
            self.phase = Phase::Subscribing;
            Decision { action: Action::Subscribe, warn: false }
        }
    }

    /// Takes what the driver saw after the last action and answers with the
    /// next one.
    pub fn step(&mut self, seen: Observation) -> (decision: Decision)
        ensures
            (*final(self), decision) == next(*old(self), seen),
    {
        match self.phase {
            Phase::Created => {
                if seen.stopped {
                    self.phase = Phase::Releasing;
                    Decision { action: Action::ReleasePermit, warn: false }
                } else {
                    self.phase = Phase::Connecting;
                    Decision { action: Action::Connect, warn: false }
                }
            },
            Phase::Connecting => {
                if seen.ok || seen.stopped {
                    self.phase = Phase::Releasing;
                    Decision { action: Action::ReleasePermit, warn: false }
                } else {
                    Decision { action: Action::Connect, warn: false }
                }
            },
            Phase::Releasing => {
                if self.mode.has_subscription() {
                    self.enter_subscribe_round(seen)
                } else {
                    self.enter_active_round(seen)
                }
            },
            Phase::Subscribing => {
                if seen.ok {
                    self.enter_active_round(seen)
                } else {
                    self.phase = Phase::SubscribeBackoff;
                    Decision { action: Action::Sleep { millis: RETRY_MILLIS }, warn: false }
                }
            },
            Phase::SubscribeBackoff => self.enter_subscribe_round(seen),
            Phase::Publishing => {
                let gives_up: bool = match self.mode {
                    Mode::Publish => true,
                    _ => false,
                };
                if !seen.ok && gives_up {
                    self.stop_now()
                } else if self.interval > 0 {
                    self.phase = Phase::Pausing;
                    Decision { action: Action::Sleep { millis: self.interval }, warn: false }
                } else {
                    self.enter_active_round(seen)
                }
            },
            Phase::Pausing => self.enter_active_round(seen),
            Phase::Stopped => Decision { action: Action::Exit, warn: false },
        }
    }
}

/// A stopped worker stays stopped and only ever asks to exit.
pub proof fn lemma_stopped_is_terminal(w: Worker, seen: Observation)
    requires
        w.phase == Phase::Stopped,
    ensures
        next(w, seen) == (w, plain(Action::Exit)),
{
}

/// A worker reaches `Stopped` only at a loop boundary: by seeing the stop
/// flag, or by a failed publish in the mode that gives up on one.
pub proof fn lemma_stops_only_when_told(w: Worker, seen: Observation)
    requires
        w.phase != Phase::Stopped,
        next(w, seen).0.phase == Phase::Stopped,
    ensures
        seen.stopped || (w.phase == Phase::Publishing && !seen.ok && w.mode == Mode::Publish),
        next(w, seen).1.action == Action::Exit,
{
}

/// Once the stop flag is seen, no new connection, subscription or publish
/// is started.
pub proof fn lemma_no_new_work_after_stop(w: Worker, seen: Observation)
    requires
        seen.stopped,
    ensures
        next(w, seen).1.action != Action::Connect,
        next(w, seen).1.action != Action::Subscribe,
        next(w, seen).1.action != Action::Publish,
        !next(w, seen).1.warn,
{
}

/// With the stop flag set, every worker has stopped after three steps,
/// whatever else its driver sees.
pub proof fn lemma_stops_within_three_steps(
    w: Worker,
    first: Observation,
    second: Observation,
    third: Observation,
)
    requires
        first.stopped,
        second.stopped,
        third.stopped,
    ensures
        next(next(next(w, first).0, second).0, third).0.phase == Phase::Stopped,
{
}

/// The permit is handed back exactly when the worker leaves the phases in
/// which it holds one, it is never taken again, and a stopped worker holds
/// none: each permit is released once, on every path.
pub proof fn lemma_permit_is_released_once(w: Worker, seen: Observation)
    ensures
        (next(w, seen).1.action == Action::ReleasePermit) == (w.phase.holds_permit() && !next(
            w,
            seen,
        ).0.phase.holds_permit()),
        !w.phase.holds_permit() ==> !next(w, seen).0.phase.holds_permit(),
        next(w, seen).0.phase == Phase::Stopped ==> !w.phase.holds_permit(),
{
}

/// No step leads back to an earlier part of the lifecycle, and a step
/// changes nothing of a worker but its phase and its count of warnings.
pub proof fn lemma_step_makes_progress(w: Worker, seen: Observation)
    ensures
        w.phase.progress() <= next(w, seen).0.phase.progress(),
        next(w, seen).0.mode == w.mode,
        next(w, seen).0.interval == w.interval,
{
}

} // verus!
