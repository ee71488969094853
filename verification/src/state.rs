//! Run state: the fleet-wide counters of one run and its stop flag.
//!
//! The counters are machine words that wrap around, each one on its own. A
//! caller that shares a [`State`] between tasks puts it behind a lock; every
//! method is then one atomic step and the laws below hold between any two of
//! them.

use crate::text::{decimal, push_decimal};
use vstd::prelude::*;
use vstd::string::*;

verus! {

/// What a [`State`] holds, as mathematical integers.
pub struct Counters {
    /// Connection events seen so far, successful or lost.
    pub attempted: int,
    /// Clients that are connected.
    pub connected: int,
    /// Clients that are not connected.
    pub disconnected: int,
    /// Whether the run was told to stop.
    pub stopped: bool,
    /// Messages published since the last report.
    pub published: int,
    /// Publish failures since the last report.
    pub pub_failures: int,
    /// Messages published during the whole run.
    pub published_total: int,
    /// Messages received since the last report.
    pub received: int,
    /// Messages received during the whole run.
    pub received_total: int,
}

/// One more, wrapping to zero after the largest machine word.
pub open spec fn inc(x: int) -> int {
    if x == usize::MAX as int {
        0
    } else {
        x + 1
    }
}

/// One less, wrapping from zero to the largest machine word.
pub open spec fn dec(x: int) -> int {
    if x == 0 {
        usize::MAX as int
    } else {
        x - 1
    }
}

/// Something that happens to the run and is recorded in its state.
pub enum Signal {
    /// A client established its connection.
    Connected,
    /// A client lost its connection.
    Disconnected,
    /// A message was published.
    Published,
    /// A publish failed.
    PublishFailed,
    /// A message was delivered to a subscriber.
    Received,
    /// The run was told to stop.
    Stop,
}

impl Counters {
    /// The counters of a run of `total` clients before anything happened:
    /// every client counts as disconnected.
    pub open spec fn initial(total: int) -> Counters {
        Counters {
            attempted: 0,
            connected: 0,
            disconnected: total,
            stopped: false,
            published: 0,
            pub_failures: 0,
            published_total: 0,
            received: 0,
            received_total: 0,
        }
    }

    /// Every counter is a machine word.
    pub open spec fn in_range(self) -> bool {
        &&& 0 <= self.attempted <= usize::MAX
        &&& 0 <= self.connected <= usize::MAX
        &&& 0 <= self.disconnected <= usize::MAX
        &&& 0 <= self.published <= usize::MAX
        &&& 0 <= self.pub_failures <= usize::MAX
        &&& 0 <= self.published_total <= usize::MAX
        &&& 0 <= self.received <= usize::MAX
        &&& 0 <= self.received_total <= usize::MAX
    }

    /// A client moved from disconnected to connected.
    pub open spec fn connect(self) -> Counters {
        Counters {
            attempted: inc(self.attempted),
            connected: inc(self.connected),
            disconnected: dec(self.disconnected),
            ..self
        }
    }

    /// A client moved from connected to disconnected.
    pub open spec fn disconnect(self) -> Counters {
        Counters {
            attempted: inc(self.attempted),
            connected: dec(self.connected),
            disconnected: inc(self.disconnected),
            ..self
        }
    }

    /// A message was published.
    pub open spec fn publish(self) -> Counters {
        Counters {
            published: inc(self.published),
            published_total: inc(self.published_total),
            ..self
        }
    }

    /// A publish failed.
    pub open spec fn publish_failure(self) -> Counters {
        Counters { pub_failures: inc(self.pub_failures), ..self }
    }

    /// A message was received.
    pub open spec fn receive(self) -> Counters {
        Counters {
            received: inc(self.received),
            received_total: inc(self.received_total),
            ..self
        }
    }

    /// The run was told to stop. No counter moves.
    pub open spec fn stop(self) -> Counters {
        Counters { stopped: true, ..self }
    }

    /// The counters after a report: what is counted from report to report
    /// starts at zero again.
    pub open spec fn reported(self) -> Counters {
        Counters { published: 0, pub_failures: 0, received: 0, ..self }
    }

    /// The effect of one signal.
    pub open spec fn apply(self, signal: Signal) -> Counters {
        match signal {
            Signal::Connected => self.connect(),
            Signal::Disconnected => self.disconnect(),
            Signal::Published => self.publish(),
            Signal::PublishFailed => self.publish_failure(),
            Signal::Received => self.receive(),
            Signal::Stop => self.stop(),
        }
    }

    /// The effect of a sequence of signals, first to last.
    pub open spec fn replay(self, trace: Seq<Signal>) -> Counters
        decreases trace.len(),
    {
        if trace.len() == 0 {
            self
        } else {
            self.apply(trace.first()).replay(trace.drop_first())
        }
    }

    /// Whether `signal` can happen now: only a disconnected client connects,
    /// and only a connected one loses its connection.
    pub open spec fn admits(self, signal: Signal) -> bool {
        match signal {
            Signal::Connected => self.disconnected > 0,
            Signal::Disconnected => self.connected > 0,
            _ => true,
        }
    }

    /// Whether every signal of `trace` can happen at its turn.
    pub open spec fn admits_all(self, trace: Seq<Signal>) -> bool
        decreases trace.len(),
    {
        trace.len() == 0 || (self.admits(trace.first()) && self.apply(trace.first()).admits_all(
            trace.drop_first(),
        ))
    }

    /// Connected and disconnected clients together are the whole fleet.
    pub open spec fn balanced(self, total: int) -> bool {
        &&& 0 <= self.connected
        &&& 0 <= self.disconnected
        &&& self.connected + self.disconnected == total
    }
}

/// The line that the reporter prints: the connection counters, then what
/// was published, what failed and what was received since the last line.
pub open spec fn summary_line(c: Counters) -> Seq<char> {
    "Client Summary[Attempted:"@ + decimal(c.attempted as nat) + ", Connected: "@ + decimal(
        c.connected as nat,
    ) + ", Disconnected: "@ + decimal(c.disconnected as nat) + "] Publish: [Success: "@ + decimal(
        c.published as nat,
    ) + ", Failure: "@ + decimal(c.pub_failures as nat) + "], Subscribed: "@ + decimal(
        c.received as nat,
    )
}

/// The shared state of one run.
pub struct State {
    attempted: usize,
    connected: usize,
    disconnected: usize,
    stopped: bool,
    published: usize,
    pub_failures: usize,
    published_total: usize,
    received: usize,
    received_total: usize,
}

impl View for State {
    type V = Counters;

    closed spec fn view(&self) -> Counters {
        Counters {
            attempted: self.attempted as int,
            connected: self.connected as int,
            disconnected: self.disconnected as int,
            stopped: self.stopped,
            published: self.published as int,
            pub_failures: self.pub_failures as int,
            published_total: self.published_total as int,
            received: self.received as int,
            received_total: self.received_total as int,
        }
    }
}

fn next(x: usize) -> (r: usize)
    ensures
        r as int == inc(x as int),
{
    x.wrapping_add(1)
}

fn prev(x: usize) -> (r: usize)
    ensures
        r as int == dec(x as int),
{
    x.wrapping_sub(1)
}

impl State {
    /// A fresh state for a run of `total` clients.
    pub fn new(total: usize) -> (state: State)
        ensures
            state@ == Counters::initial(total as int),
    {
        State {
            attempted: 0,
            connected: 0,
            disconnected: total,
            stopped: false,
            published: 0,
            pub_failures: 0,
            published_total: 0,
            received: 0,
            received_total: 0,
        }
    }

    /// The counters are machine words, whatever happened.
    pub proof fn lemma_in_range(&self)
        ensures
            self@.in_range(),
    {
    }

    /// Clients that are connected.
    pub fn connected(&self) -> (n: usize)
        ensures
            n as int == self@.connected,
    {
        self.connected
    }

    /// Clients that are not connected.
    pub fn disconnected(&self) -> (n: usize)
        ensures
            n as int == self@.disconnected,
    {
        self.disconnected
    }

    /// Connection events seen so far.
    pub fn attempted(&self) -> (n: usize)
        ensures
            n as int == self@.attempted,
    {
        self.attempted
    }

    /// Whether the run was told to stop.
    pub fn stopped(&self) -> (b: bool)
        ensures
            b == self@.stopped,
    {
        self.stopped
    }

    /// Records that a client established its connection.
    pub fn on_connected(&mut self)
        ensures
            final(self)@ == old(self)@.connect(),
    {
        self.attempted = next(self.attempted);
        self.connected = next(self.connected);
        self.disconnected = prev(self.disconnected);
    }

    /// Records that a client lost its connection.
    pub fn on_disconnected(&mut self)
        ensures
            final(self)@ == old(self)@.disconnect(),
    {
        self.attempted = next(self.attempted);
        self.disconnected = next(self.disconnected);
        self.connected = prev(self.connected);
    }

    /// Records a published message.
    pub fn on_publish(&mut self)
        ensures
            final(self)@ == old(self)@.publish(),
    {
        self.published = next(self.published);
        self.published_total = next(self.published_total);
    }

    /// Hands out the number of messages published since the last call and
    /// starts counting from zero again.
    pub fn publish_success_count(&mut self) -> (n: usize)
        ensures
            n as int == old(self)@.published,
            final(self)@ == (Counters { published: 0, ..old(self)@ }),
    {
        let count: usize = self.published;
        self.published = 0;
        count
    }

    /// Records a failed publish.
    pub fn on_publish_failure(&mut self)
        ensures
            final(self)@ == old(self)@.publish_failure(),
    {
        self.pub_failures = next(self.pub_failures);
    }

    /// Hands out the number of publish failures since the last call and
    /// starts counting from zero again.
    pub fn publish_failure_count(&mut self) -> (n: usize)
        ensures
            n as int == old(self)@.pub_failures,
            final(self)@ == (Counters { pub_failures: 0, ..old(self)@ }),
    {
        let count: usize = self.pub_failures;
        self.pub_failures = 0;
        count
    }

    /// Records a received message.
    pub fn on_receive(&mut self)
        ensures
            final(self)@ == old(self)@.receive(),
    {
        self.received = next(self.received);
        self.received_total = next(self.received_total);
    }

    /// Hands out the number of messages received since the last call and
    /// starts counting from zero again.
    pub fn received(&mut self) -> (n: usize)
        ensures
            n as int == old(self)@.received,
            final(self)@ == (Counters { received: 0, ..old(self)@ }),
    {
        let count: usize = self.received;
        self.received = 0;
        count
    }

    /// The stop flag, to read. Only [`State::stop`] sets it, and nothing
    /// clears it.
    pub fn stop_flag(&self) -> (flag: &bool)
        ensures
            *flag == self@.stopped,
    {
        &self.stopped
    }

    /// Tells the run to stop. Every worker sees the flag at its next loop
    /// boundary.
    pub fn stop(&mut self)
        ensures
            final(self)@ == old(self)@.stop(),
    {
        self.stopped = true;
    }

    /// Writes the reporter's line and starts the counters of the next
    /// report at zero.
    pub fn summary(&mut self) -> (line: String)
        ensures
            line@ == summary_line(old(self)@),
            final(self)@ == old(self)@.reported(),
    {
        let mut line = String::new();
        line.append("Client Summary[Attempted:");
        push_decimal(&mut line, self.attempted as u128);
        line.append(", Connected: ");
        push_decimal(&mut line, self.connected as u128);
        line.append(", Disconnected: ");
        push_decimal(&mut line, self.disconnected as u128);
        line.append("] Publish: [Success: ");
        push_decimal(&mut line, self.publish_success_count() as u128);
        line.append(", Failure: ");
        push_decimal(&mut line, self.publish_failure_count() as u128);
        line.append("], Subscribed: ");
        push_decimal(&mut line, self.received() as u128);
        assert(line@ =~= summary_line(old(self)@));
        line
    }

    /// Records one signal.
    pub fn record(&mut self, signal: Signal)
        ensures
            final(self)@ == old(self)@.apply(signal),
    {
        match signal {
            Signal::Connected => self.on_connected(),
            Signal::Disconnected => self.on_disconnected(),
            Signal::Published => self.on_publish(),
            Signal::PublishFailed => self.on_publish_failure(),
            Signal::Received => self.on_receive(),
            Signal::Stop => self.stop(),
        }
    }
}

/// One admissible signal keeps connected and disconnected clients summing to
/// the fleet's size.
pub proof fn lemma_step_keeps_balance(c: Counters, total: int, signal: Signal)
    requires
        c.balanced(total),
        total <= usize::MAX,
        c.admits(signal),
    ensures
        c.apply(signal).balanced(total),
{
}

/// From the start of a run of `total` clients, after any sequence of signals
/// in which only disconnected clients connect and only connected ones drop,
/// `connected + disconnected == total`.
pub proof fn lemma_connected_plus_disconnected_is_total(total: usize, trace: Seq<Signal>)
    requires
        Counters::initial(total as int).admits_all(trace),
    ensures
        Counters::initial(total as int).replay(trace).connected + Counters::initial(
            total as int,
        ).replay(trace).disconnected == total,
{
    lemma_replay_keeps_balance(Counters::initial(total as int), total as int, trace);
}

/// Balance survives every admissible sequence of signals.
pub proof fn lemma_replay_keeps_balance(c: Counters, total: int, trace: Seq<Signal>)
    requires
        c.balanced(total),
        total <= usize::MAX,
        c.admits_all(trace),
    ensures
        c.replay(trace).balanced(total),
    decreases trace.len(),
{
    if trace.len() > 0 {
        lemma_step_keeps_balance(c, total, trace.first());
        lemma_replay_keeps_balance(c.apply(trace.first()), total, trace.drop_first());
    }
}

/// Once every client of the fleet is connected, none counts as disconnected
/// and `connected` is the fleet's size.
pub proof fn lemma_all_connected(c: Counters, total: int)
    requires
        c.balanced(total),
        c.disconnected == 0,
    ensures
        c.connected == total,
{
}

/// Stopping twice is stopping once, and stopping moves no counter.
pub proof fn lemma_stop_is_idempotent(c: Counters)
    ensures
        c.stop().stop() == c.stop(),
        c.stop().stopped,
        c.stop() == (Counters { stopped: true, ..c }),
        c.stopped ==> c.stop() == c,
{
}

/// A stop signal commutes with every other signal: it changes what the
/// counters hold no more the second time than the first.
pub proof fn lemma_stop_commutes(c: Counters, signal: Signal)
    ensures
        c.stop().apply(signal) == c.apply(signal).stop(),
{
}

/// The stop flag is never cleared: a stopped run stays stopped whatever is
/// recorded afterwards.
pub proof fn lemma_stop_is_permanent(c: Counters, trace: Seq<Signal>)
    requires
        c.stopped,
    ensures
        c.replay(trace).stopped,
    decreases trace.len(),
{
    if trace.len() > 0 {
        lemma_stop_is_permanent(c.apply(trace.first()), trace.drop_first());
    }
}

} // verus!
