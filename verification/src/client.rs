//! The bookkeeping of one client: what each report of the messaging client
//! does to the run state and to the latency recorder.

use crate::cli::{server_uri, Common};
use crate::clock::now_millis;
use crate::state::State;
use crate::statistics::{observed, sample_count, Bucket, Histogram};
use crate::wire::{read_timestamp, timestamp_of};
use vstd::prelude::*;

verus! {

/// The time that a message took from its sender's clock to the receiver's,
/// in milliseconds: nothing for a message from the future, which a skewed
/// clock or a stale payload gives.
pub open spec fn delay(sent: u128, now: u128) -> Option<u128> {
    if now >= sent {
        Some((now - sent) as u128)
    } else {
        None
    }
}

/// The sample that a delivered payload adds to the delivery histogram when
/// it arrives at `now`: the delay of its timestamp, if it carries one and
/// the clock could be read.
pub open spec fn delivery_sample(payload: Seq<u8>, now: Option<u128>) -> Option<u128> {
    match (timestamp_of(payload), now) {
        (Some(sent), Some(now)) => delay(sent, now),
        _ => None,
    }
}

/// A histogram after a sample that may be missing, and that is dropped when
/// the histogram is full.
pub open spec fn with_sample(buckets: Seq<Bucket>, sample: Option<u128>) -> Seq<Bucket> {
    match sample {
        Some(value) => if sample_count(buckets) < u64::MAX {
            observed(buckets, value as int)
        } else {
            buckets
        },
        None => buckets,
    }
}

/// The time that a message took, if it did not come from the future.
pub fn delivery_latency(sent: u128, now: u128) -> (latency: Option<u128>)
    ensures
        latency == delay(sent, now),
{
    if now >= sent {
        Some(now - sent)
    } else {
        None
    }
}

/// One simulated client: its options and its identifier.
pub struct Client {
    opts: Common,
    client_id: String,
}

impl Client {
    /// The options that the client was made with.
    pub closed spec fn options(&self) -> Common {
        self.opts
    }

    /// The identifier that the client was made with.
    pub closed spec fn id(&self) -> Seq<char> {
        self.client_id@
    }

    /// A client with the given options and identifier.
    pub fn new(opts: Common, client_id: String) -> (client: Client)
        ensures
            client.options() == opts,
            client.id() == client_id@,
    {
        Client { opts, client_id }
    }

    /// The client's identifier.
    pub fn client_id(&self) -> (id: String)
        ensures
            id@ == self.id(),
    {
        self.client_id.clone()
    }

    /// The address of the broker that the client connects to.
    pub fn server_uri(&self) -> (uri: String)
        ensures
            uri@ == server_uri(self.options().ssl, self.options().host@, self.options().port),
    {
        self.opts.connection_string()
    }

    /// Whether a connection is to be attempted: not once the run was told
    /// to stop.
    pub fn connect(&self, state: &State) -> (attempt: bool)
        ensures
            attempt == !state@.stopped,
    {
        !state.stopped()
    }

    /// Records the outcome of a connection attempt that took `elapsed`
    /// milliseconds: a success adds a sample to the connect histogram, a
    /// failure nothing.
    pub fn connect_finished(&self, latency: &mut Histogram, ok: bool, elapsed: u128)
        requires
            old(latency).wf(),
        ensures
            final(latency).wf(),
            final(latency)@ == with_sample(
                old(latency)@,
                if ok {
                    Some(elapsed)
                } else {
                    None
                },
            ),
    {
        proof {
            latency.lemma_wf();
        }
        if ok {
            latency.record(elapsed);
        }
    }

    /// Records that the connection was established.
    pub fn connection_established(&self, state: &mut State)
        ensures
            final(state)@ == old(state)@.connect(),
    {
        state.on_connected();
    }

    /// Records that the connection was lost.
    pub fn connection_lost(&self, state: &mut State)
        ensures
            final(state)@ == old(state)@.disconnect(),
    {
        state.on_disconnected();
    }

    /// Records the outcome of a publish that took `elapsed` milliseconds: a
    /// success counts as published and adds a sample to the publish
    /// histogram, a failure counts as a failure.
    pub fn publish_finished(
        &self,
        state: &mut State,
        latency: &mut Histogram,
        ok: bool,
        elapsed: u128,
    )
        requires
            old(latency).wf(),
        ensures
            final(latency).wf(),
            final(state)@ == if ok {
                old(state)@.publish()
            } else {
                old(state)@.publish_failure()
            },
            final(latency)@ == with_sample(
                old(latency)@,
                if ok {
                    Some(elapsed)
                } else {
                    None
                },
            ),
    {
        proof {
            latency.lemma_wf();
        }
        if ok {
            latency.record(elapsed);
            state.on_publish();
        } else {
            state.on_publish_failure();
        }
    }

    /// Records a message that arrived when the clock showed `now`: it
    /// counts as received, and the delay of its timestamp, if it carries
    /// one that does not lie in the future, is added to the delivery
    /// histogram.
    pub fn message_arrived_at(
        &self,
        state: &mut State,
        latency: &mut Histogram,
        payload: &[u8],
        now: Option<u128>,
    )
        requires
            old(latency).wf(),
        ensures
            final(latency).wf(),
            final(state)@ == old(state)@.receive(),
            final(latency)@ == with_sample(old(latency)@, delivery_sample(payload@, now)),
    {
        proof {
            latency.lemma_wf();
        }
        state.on_receive();
        match (read_timestamp(payload), now) {
            (Some(sent), Some(now)) => {
                match delivery_latency(sent, now) {
                    Some(elapsed) => {
                        latency.record(elapsed);
                    },
                    None => {},
                }
            },
            _ => {},
        }
    }

    /// Records a message that arrives now; the clock is read only for a
    /// payload that carries a timestamp. Whatever the clock shows, the
    /// message counts as received, and the delivery histogram gains at most
    /// the one sample that the payload's timestamp gives with some reading
    /// of the clock.
    pub fn message_arrived(&self, state: &mut State, latency: &mut Histogram, payload: &[u8])
        requires
            old(latency).wf(),
        ensures
            final(latency).wf(),
            final(state)@ == old(state)@.receive(),
            exists|now: Option<u128>|
                final(latency)@ == with_sample(
                    old(latency)@,
                    #[trigger] delivery_sample(payload@, now),
                ),
            timestamp_of(payload@) is None ==> final(latency)@ == old(latency)@,
    {
        let now = match read_timestamp(payload) {
            Some(_) => now_millis(),
            None => None,
        };
        self.message_arrived_at(state, latency, payload, now);
    }
}

} // verus!
