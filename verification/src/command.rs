//! Orchestration of a run: admission of the clients, the barrier that waits
//! for the fleet to connect, the countdown of the run, and the stamping of
//! payloads.
//!
//! Like a worker, the orchestrator is a state machine that its driver
//! steps: the driver performs a command, waits for it to finish, and hands
//! what it saw to [`Orchestrator::step`].

use crate::cli::{
    client_id_for, fanout, payload_of, topic_for, Common, PubOptions, SubOptions, WorkerIdentity,
};
use crate::clock::now_millis;
use crate::wire::{tag_at, tagged, TIMESTAMP_WIDTH};
use crate::worker::{Mode, Phase, Worker};
use vstd::prelude::*;

verus! {

/// How long the orchestrator sleeps between two looks at the fleet, and
/// between two ticks of the countdown, in milliseconds.
pub const POLL_MILLIS: u64 = 1000;

/// Stamps `data` with the wall clock, in milliseconds since the Unix epoch,
/// and returns the time written. A payload shorter than a timestamp is left
/// as it is, and so is every payload while the clock stands before the
/// epoch.
pub fn tag_timestamp(data: &mut [u8]) -> (written: Option<u128>)
    ensures
        old(data)@.len() < TIMESTAMP_WIDTH ==> written is None,
        match written {
            Some(timestamp) => old(data)@.len() >= TIMESTAMP_WIDTH && final(data)@ == tagged(
                old(data)@,
                timestamp,
            ),
            None => final(data)@ == old(data)@,
        },
{
    if data.len() < TIMESTAMP_WIDTH {
        return None;
    }
    tag_at(data, now_millis())
}

/// The admission controller's books: how many permits there are and how
/// many are out.
#[derive(Clone, Copy, Debug, PartialEq, Eq, Structural)]
pub struct Admission {
    /// The number of permits.
    pub limit: usize,
    /// The number of permits that workers hold.
    pub held: usize,
}

impl Admission {
    /// No more permits are out than there are.
    pub open spec fn wf(&self) -> bool {
        self.held <= self.limit
    }

    /// A controller with `limit` permits, all of them free.
    pub fn new(limit: usize) -> (admission: Admission)
        ensures
            admission == (Admission { limit, held: 0 }),
            admission.wf(),
    {
        Admission { limit, held: 0 }
    }

    /// The number of free permits.
    pub fn available(&self) -> (n: usize)
        requires
            self.wf(),
        ensures
            n == self.limit - self.held,
    {
        self.limit - self.held
    }

    /// Hands out a permit if one is free, and tells whether it did.
    pub fn try_acquire(&mut self) -> (granted: bool)
        requires
            old(self).wf(),
        ensures
            final(self).wf(),
            granted == (old(self).held < old(self).limit),
            final(self).limit == old(self).limit,
            final(self).held == old(self).held + if granted {
                1int
            } else {
                0int
            },
    {
        if self.held < self.limit {
            self.held = self.held + 1;
            true
        } else {
            false
        }
    }

    /// Takes a permit back. Tells whether one was out; if none was, nothing
    /// changes.
    pub fn release(&mut self) -> (returned: bool)
        requires
            old(self).wf(),
        ensures
            final(self).wf(),
            returned == (old(self).held > 0),
            final(self).limit == old(self).limit,
            final(self).held == old(self).held - if returned {
                1int
            } else {
                0int
            },
    {
        if self.held > 0 {
            self.held = self.held - 1;
            true
        } else {
            false
        }
    }
}

/// Where the orchestrator stands.
#[derive(Clone, Copy, Debug, PartialEq, Eq, Structural)]
pub enum Stage {
    /// At the head of the spawn loop.
    Spawning,
    /// Waiting for a permit for the next client.
    Admitting,
    /// The next client is being created and scheduled; the orchestrator
    /// holds the permit that the client is to get.
    Creating,
    /// The permit of a client that could not be created is being handed
    /// back.
    Releasing,
    /// Waiting for the fleet to connect.
    AwaitingConnections,
    /// Counting the run's seconds down.
    Running,
    /// Done.
    Finished,
}

/// What the orchestrator asks its driver to do next.
#[derive(Clone, Copy, Debug, PartialEq, Eq, Structural)]
pub enum Command {
    /// Wait for an admission permit.
    AcquirePermit,
    /// Create the client with this number, give it the permit and schedule
    /// it.
    Spawn { id: usize },
    /// Hand back the permit that no client took.
    ReleasePermit,
    /// Sleep for so many milliseconds.
    Sleep { millis: u64 },
    /// Show the final statistics and end the run.
    Report,
    /// End the run.
    Finish,
    /// End the run with an error: no permit could be had.
    Fail,
}

/// What the driver saw when the last command had finished.
#[derive(Clone, Copy, Debug, PartialEq, Eq, Structural)]
pub struct Progress {
    /// Whether the last command succeeded. Commands that cannot fail
    /// succeed.
    pub ok: bool,
    /// The stop flag of the run.
    pub stopped: bool,
    /// The number of connected clients.
    pub connected: usize,
}

/// The orchestrator of one run.
#[derive(Clone, Copy, Debug, PartialEq, Eq, Structural)]
pub struct Orchestrator {
    /// What the clients do once connected.
    pub mode: Mode,
    /// Where the orchestrator stands.
    pub stage: Stage,
    /// The number of the next client to create.
    pub next_id: usize,
    /// One more than the number of the last client.
    pub end_id: usize,
    /// The size of the fleet.
    pub total: usize,
    /// The duration of the run in seconds.
    pub time: usize,
    /// The seconds of the run that have passed.
    pub elapsed: usize,
    /// The pause between two publishes of a client, in milliseconds.
    pub interval: u64,
    /// Whether the run ends with a report.
    pub show_statistics: bool,
}

/// The orchestrator that a configuration asks for, before its first step.
pub open spec fn planned(common: Common, mode: Mode) -> Orchestrator {
    Orchestrator {
        mode,
        stage: Stage::Spawning,
        next_id: common.start_number,
        end_id: (common.start_number + common.total) as usize,
        total: common.total,
        time: common.time,
        elapsed: 0,
        interval: common.interval,
        show_statistics: common.show_statistics,
    }
}

/// The worker that a newly created client starts as.
pub open spec fn recruit(o: Orchestrator) -> Worker {
    Worker { mode: o.mode, phase: Phase::Created, interval: o.interval, warnings: 0 }
}

/// How the run ends: with a report if one was asked for.
pub open spec fn finish(o: Orchestrator) -> (Orchestrator, Command) {
    (
        Orchestrator { stage: Stage::Finished, ..o },
        if o.show_statistics {
            Command::Report
        } else {
            Command::Finish
        },
    )
}

/// One tick of the countdown: sleep a second while seconds are left and the
/// run was not told to stop, else end the run.
pub open spec fn countdown_round(o: Orchestrator, seen: Progress) -> (Orchestrator, Command) {
    if o.elapsed < o.time && !seen.stopped {
        (
            Orchestrator { stage: Stage::Running, elapsed: (o.elapsed + 1) as usize, ..o },
            Command::Sleep { millis: POLL_MILLIS },
        )
    } else {
        finish(o)
    }
}

/// One look at the barrier: sleep a second while clients are missing and
/// the run was not told to stop, else start the countdown.
pub open spec fn barrier_round(o: Orchestrator, seen: Progress) -> (Orchestrator, Command) {
    if seen.connected < o.total && !seen.stopped {
        (
            Orchestrator { stage: Stage::AwaitingConnections, ..o },
            Command::Sleep { millis: POLL_MILLIS },
        )
    } else {
        countdown_round(Orchestrator { elapsed: 0, ..o }, seen)
    }
}

/// The head of the spawn loop: ask for a permit while clients are left to
/// create and the run was not told to stop, else go to the barrier.
pub open spec fn spawn_round(o: Orchestrator, seen: Progress) -> (Orchestrator, Command) {
    if seen.stopped || o.next_id >= o.end_id {
        barrier_round(o, seen)
    } else {
        (Orchestrator { stage: Stage::Admitting, ..o }, Command::AcquirePermit)
    }
}

/// What is done with a permit in hand: it goes to the next client if one
/// is left to create and the run was not told to stop, else back.
pub open spec fn create_round(o: Orchestrator, seen: Progress) -> (Orchestrator, Command) {
    if !seen.stopped && o.next_id < o.end_id {
        (
            Orchestrator { stage: Stage::Creating, next_id: (o.next_id + 1) as usize, ..o },
            Command::Spawn { id: o.next_id },
        )
    } else {
        (Orchestrator { stage: Stage::Releasing, ..o }, Command::ReleasePermit)
    }
}

/// The orchestrator after one step, and what it asks for. A client that
/// cannot be created is given up alone: its permit goes to the next one.
pub open spec fn advance(o: Orchestrator, seen: Progress) -> (Orchestrator, Command) {
    match o.stage {
        Stage::Spawning => spawn_round(o, seen),
        Stage::Admitting => if !seen.ok {
            (Orchestrator { stage: Stage::Finished, ..o }, Command::Fail)
        } else {
            create_round(o, seen)
        },
        Stage::Creating => if seen.ok {
            spawn_round(o, seen)
        } else {
            create_round(o, seen)
        },
        Stage::Releasing => barrier_round(o, seen),
        Stage::AwaitingConnections => barrier_round(o, seen),
        Stage::Running => countdown_round(o, seen),
        Stage::Finished => (o, Command::Finish),
    }
}

impl Stage {
    /// Whether the orchestrator holds a permit that no worker has yet.
    pub open spec fn holds_permit(self) -> bool {
        self == Stage::Creating
    }
}

impl Orchestrator {
    /// The numbers still to hand out lie below the end, and no more seconds
    /// have passed than the run lasts.
    pub open spec fn wf(&self) -> bool {
        &&& self.next_id <= self.end_id
        &&& self.elapsed <= self.time
    }

    /// The orchestrator of a run of `common.total` clients numbered from
    /// `common.start_number`. `None` when the configuration is not valid:
    /// no client may connect at a time, or the last number does not fit in
    /// a machine word.
    pub fn new(common: &Common, mode: Mode) -> (result: Option<Orchestrator>)
        ensures
            result is Some <==> common.valid(),
            result is Some ==> result.unwrap() == planned(*common, mode) && result.unwrap().wf(),
    {
        if !common.is_valid() {
            return None;
        }
        Some(
            Orchestrator {
                mode,
                stage: Stage::Spawning,
                next_id: common.start_number,
                end_id: common.start_number + common.total,
                total: common.total,
                time: common.time,
                elapsed: 0,
                interval: common.interval,
                show_statistics: common.show_statistics,
            },
        )
    }

    /// The worker for a client that was just spawned.
    pub fn worker(&self) -> (worker: Worker)
        ensures
            worker == recruit(*self),
    {
        Worker::new(self.mode, self.interval)
    }

    /// Whether the run has ended.
    pub fn is_finished(&self) -> (b: bool)
        ensures
            b == (self.stage == Stage::Finished),
    {
        match self.stage {
            Stage::Finished => true,
            _ => false,
        }
    }

    fn finish(&mut self) -> (command: Command)
        ensures
            (*final(self), command) == finish(*old(self)),
    {
        self.stage = Stage::Finished;
        if self.show_statistics {
            Command::Report
        } else {
            Command::Finish
        }
    }

    /// One tick of the countdown of the run.
    fn await_running(&mut self, seen: Progress) -> (command: Command)
        requires
            old(self).wf(),
        ensures
            final(self).wf(),
            (*final(self), command) == countdown_round(*old(self), seen),
    {
        if self.elapsed < self.time && !seen.stopped {
            self.stage = Stage::Running;
            self.elapsed = self.elapsed + 1;
            Command::Sleep { millis: POLL_MILLIS }
        } else {
            self.finish()
        }
    }

    /// One look at the fleet while it connects.
    fn await_connection(&mut self, seen: Progress) -> (command: Command)
        requires
            old(self).wf(),
        ensures
            final(self).wf(),
            (*final(self), command) == barrier_round(*old(self), seen),
    {
        if seen.connected < self.total && !seen.stopped {
            self.stage = Stage::AwaitingConnections;
            Command::Sleep { millis: POLL_MILLIS }
        } else {
            self.elapsed = 0;
            self.await_running(seen)
        }
    }

    fn spawn_next(&mut self, seen: Progress) -> (command: Command)
        requires
            old(self).wf(),
        ensures
            final(self).wf(),
            (*final(self), command) == spawn_round(*old(self), seen),
    {
        if seen.stopped || self.next_id >= self.end_id {
            self.await_connection(seen)
        } else {
            self.stage = Stage::Admitting;
            Command::AcquirePermit
        }
    }

    fn create_next(&mut self, seen: Progress) -> (command: Command)
        requires
            old(self).wf(),
        ensures
            final(self).wf(),
            (*final(self), command) == create_round(*old(self), seen),
    {
        if !seen.stopped && self.next_id < self.end_id {
            let id: usize = self.next_id;
            self.next_id = id + 1;
            self.stage = Stage::Creating;
            Command::Spawn { id }
        } else {
            self.stage = Stage::Releasing;
            Command::ReleasePermit
        }
    }

    /// Takes what the driver saw after the last command and answers with
    /// the next one.
    pub fn step(&mut self, seen: Progress) -> (command: Command)
        requires
            old(self).wf(),
        ensures
            final(self).wf(),
            (*final(self), command) == advance(*old(self), seen),
    {
        match self.stage {
            Stage::Spawning => self.spawn_next(seen),
            Stage::Admitting => {
                if !seen.ok {
                    self.stage = Stage::Finished;
                    Command::Fail
                } else {
                    self.create_next(seen)
                }
            },
            Stage::Creating => {
                if seen.ok {
                    self.spawn_next(seen)
                } else {
                    self.create_next(seen)
                }
            },
            Stage::Releasing => self.await_connection(seen),
            Stage::AwaitingConnections => self.await_connection(seen),
            Stage::Running => self.await_running(seen),
            Stage::Finished => Command::Finish,
        }
    }
}

/// What the clients of a run send, and where.
#[derive(Debug)]
pub struct Traffic {
    /// The topic; `%i` in it stands for the topic's number.
    pub topic: String,
    /// The number of topics that the clients are spread over.
    pub topic_number: usize,
    /// The payload that a publisher starts from; empty for a subscriber.
    pub payload: Vec<u8>,
}

/// A run that is set up and has not started: its orchestrator and, unless
/// the clients only connect, their traffic.
#[derive(Debug)]
pub struct Plan {
    pub orchestrator: Orchestrator,
    pub traffic: Option<Traffic>,
}

impl Plan {
    /// The plan of a run in `mode` whose clients publish as `options` say:
    /// the topics are `common.total` when no number was asked for.
    pub open spec fn publishes(self, common: Common, options: PubOptions, mode: Mode) -> bool {
        &&& self.orchestrator == planned(common, mode)
        &&& self.orchestrator.wf()
        &&& self.traffic is Some
        &&& self.traffic.unwrap().topic@ == options.topic@
        &&& self.traffic.unwrap().topic_number == fanout(options.topic_number, common.total)
        &&& self.traffic.unwrap().payload@ == payload_of(options.payload, options.message_size)
    }

    /// The plan of a run whose clients subscribe as `options` say.
    pub open spec fn subscribes(self, common: Common, options: SubOptions) -> bool {
        &&& self.orchestrator == planned(common, Mode::Subscribe)
        &&& self.orchestrator.wf()
        &&& self.traffic is Some
        &&& self.traffic.unwrap().topic@ == options.topic@
        &&& self.traffic.unwrap().topic_number == fanout(options.topic_number, common.total)
        &&& self.traffic.unwrap().payload@ == Seq::<u8>::empty()
    }

    /// The topic of client `id`: none without traffic.
    pub open spec fn topic_of(self, id: nat) -> Seq<char> {
        match self.traffic {
            Some(traffic) => topic_for(traffic.topic@, traffic.topic_number as nat, id),
            None => Seq::empty(),
        }
    }

    /// The topics can be told apart: the clients are spread over at least
    /// one.
    pub open spec fn has_topics(self) -> bool {
        self.traffic is Some ==> self.traffic.unwrap().topic_number > 0
    }

    /// Tells whether the clients are spread over at least one topic.
    pub fn check_topics(&self) -> (ok: bool)
        ensures
            ok == self.has_topics(),
    {
        match &self.traffic {
            Some(traffic) => traffic.topic_number > 0,
            None => true,
        }
    }

    /// The identity of client `id`.
    pub fn identity(&self, common: &Common, id: usize) -> (who: WorkerIdentity)
        requires
            self.has_topics(),
        ensures
            who.id == id,
            who.client_id@ == client_id_for(common.client_id@, id as nat),
            who.topic@ == self.topic_of(id as nat),
    {
        match &self.traffic {
            Some(traffic) => common.identity(traffic.topic.as_str(), traffic.topic_number, id),
            None => WorkerIdentity { id, client_id: common.client_id_of(id), topic: String::new() },
        }
    }
}

fn plan_publishing(common: &Common, pub_options: &PubOptions, mode: Mode) -> (plan: Option<Plan>)
    ensures
        plan is Some <==> common.valid(),
        plan is Some ==> plan.unwrap().publishes(*common, *pub_options, mode),
{
    match Orchestrator::new(common, mode) {
        Some(orchestrator) => {
            let topic_number: usize = if pub_options.topic_number == 0 {
                common.total
            } else {
                pub_options.topic_number
            };
            Some(
                Plan {
                    orchestrator,
                    traffic: Some(
                        Traffic {
                            topic: pub_options.topic.clone(),
                            topic_number,
                            payload: pub_options.payload_bytes(),
                        },
                    ),
                },
            )
        },
        None => None,
    }
}

/// Sets up a run whose clients connect and stay connected. `None` when the
/// configuration is not valid.
pub fn connect(common: &Common) -> (plan: Option<Plan>)
    ensures
        plan is Some <==> common.valid(),
        plan is Some ==> plan.unwrap().orchestrator == planned(*common, Mode::Connect)
            && plan.unwrap().orchestrator.wf() && plan.unwrap().traffic is None,
{
    match Orchestrator::new(common, Mode::Connect) {
        Some(orchestrator) => Some(Plan { orchestrator, traffic: None }),
        None => None,
    }
}

/// Sets up a run whose clients publish at the configured interval. `None`
/// when the configuration is not valid.
pub fn publish(common: &Common, pub_options: &PubOptions) -> (plan: Option<Plan>)
    ensures
        plan is Some <==> common.valid(),
        plan is Some ==> plan.unwrap().publishes(*common, *pub_options, Mode::Publish),
{
    plan_publishing(common, pub_options, Mode::Publish)
}

/// Sets up a run whose clients subscribe and stay connected. `None` when
/// the configuration is not valid.
pub fn subscribe(common: &Common, sub_options: &SubOptions) -> (plan: Option<Plan>)
    ensures
        plan is Some <==> common.valid(),
        plan is Some ==> plan.unwrap().subscribes(*common, *sub_options),
{
    match Orchestrator::new(common, Mode::Subscribe) {
        Some(orchestrator) => {
            let topic_number: usize = if sub_options.topic_number == 0 {
                common.total
            } else {
                sub_options.topic_number
            };
            Some(
                Plan {
                    orchestrator,
                    traffic: Some(
                        Traffic {
                            topic: sub_options.topic.clone(),
                            topic_number,
                            payload: Vec::new(),
                        },
                    ),
                },
            )
        },
        None => None,
    }
}

/// Sets up a run whose clients subscribe and then publish at the configured
/// interval. `None` when the configuration is not valid.
pub fn benchmark(common: &Common, pub_options: &PubOptions) -> (plan: Option<Plan>)
    ensures
        plan is Some <==> common.valid(),
        plan is Some ==> plan.unwrap().publishes(*common, *pub_options, Mode::Benchmark),
{
    plan_publishing(common, pub_options, Mode::Benchmark)
}

/// In a plan for a fleet that is not empty, the clients are spread over at
/// least one topic, so each of them has its topic.
pub proof fn lemma_planned_fleet_has_topics(plan: Plan, common: Common, topic_number: usize)
    requires
        plan.traffic is Some ==> plan.traffic.unwrap().topic_number == fanout(
            topic_number,
            common.total,
        ),
        common.total > 0,
    ensures
        plan.has_topics(),
{
}

/// Every client number that is handed out is the next one in line and lies
/// in the fleet's range; each step hands out at most one, and numbers are
/// never handed out again.
pub proof fn lemma_spawns_each_number_once(o: Orchestrator, seen: Progress)
    requires
        o.wf(),
    ensures
        advance(o, seen).0.wf(),
        advance(o, seen).0.end_id == o.end_id,
        advance(o, seen).0.next_id >= o.next_id,
        advance(o, seen).1 is Spawn ==> advance(o, seen).1 == (Command::Spawn { id: o.next_id })
            && o.next_id < o.end_id && advance(o, seen).0.next_id == o.next_id + 1,
        !(advance(o, seen).1 is Spawn) ==> advance(o, seen).0.next_id == o.next_id,
{
}

/// A permit is asked for only for a client that is still to be created, and
/// never once the stop flag was seen; the same holds of creating a client.
pub proof fn lemma_admits_only_while_running(o: Orchestrator, seen: Progress)
    requires
        advance(o, seen).1 == Command::AcquirePermit || advance(o, seen).1 is Spawn,
    ensures
        !seen.stopped,
        o.next_id < o.end_id,
{
}

/// Whether the orchestrator has a permit in hand that no client took: one
/// that was just granted, or one left over from a client that could not be
/// created.
pub open spec fn permit_in_hand(o: Orchestrator, seen: Progress) -> bool {
    (o.stage == Stage::Admitting && seen.ok) || (o.stage == Stage::Creating && !seen.ok)
}

/// A permit in hand goes to a new client or back to the controller at
/// once, and nothing else creates a client or hands a permit back: no
/// permit is lost, and none is given twice.
pub proof fn lemma_orchestrator_keeps_no_permit(o: Orchestrator, seen: Progress)
    ensures
        permit_in_hand(o, seen) <==> advance(o, seen).1 is Spawn || advance(o, seen).1
            == Command::ReleasePermit,
        advance(o, seen).0.stage.holds_permit() <==> advance(o, seen).1 is Spawn,
{
}

/// A client that cannot be created does not end the run: while clients are
/// left and the run was not told to stop, the next one is created with the
/// permit in hand.
pub proof fn lemma_failed_creation_is_local(o: Orchestrator, seen: Progress)
    requires
        o.stage == Stage::Creating,
        !seen.ok,
        !seen.stopped,
        o.next_id < o.end_id,
    ensures
        advance(o, seen).1 == (Command::Spawn { id: o.next_id }),
        advance(o, seen).0.stage == Stage::Creating,
{
}

/// The barrier opens exactly when the whole fleet is connected or the run
/// was told to stop.
pub proof fn lemma_barrier(o: Orchestrator, seen: Progress)
    requires
        o.stage == Stage::AwaitingConnections,
    ensures
        (advance(o, seen).0.stage == Stage::AwaitingConnections) == (seen.connected < o.total
            && !seen.stopped),
{
}

/// The countdown sleeps once for each second of the run and ends early
/// when the run is told to stop.
pub proof fn lemma_countdown(o: Orchestrator, seen: Progress)
    requires
        o.stage == Stage::Running,
        o.wf(),
    ensures
        advance(o, seen).1 is Sleep <==> o.elapsed < o.time && !seen.stopped,
        advance(o, seen).1 is Sleep ==> advance(o, seen).0.elapsed == o.elapsed + 1 && advance(
            o,
            seen,
        ).0.stage == Stage::Running,
        !(advance(o, seen).1 is Sleep) ==> advance(o, seen).0.stage == Stage::Finished,
{
}

/// A finished run stays finished.
pub proof fn lemma_finished_is_terminal(o: Orchestrator, seen: Progress)
    requires
        o.stage == Stage::Finished,
    ensures
        advance(o, seen) == (o, Command::Finish),
{
}

} // verus!
