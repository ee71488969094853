//! The fleet as a whole: the orchestrator, its workers and the admission
//! controller's books, and the law that ties them together.
//!
//! The driver of a run grants a permit only when one is free, gives the
//! permit in hand to the client it creates, and hands a permit back when
//! the orchestrator or a worker asks for it. The transitions below say what
//! that does to the fleet; the laws show that the books always agree with
//! the permits that are out, so that never more clients are connecting than
//! there are permits.

use crate::command::{advance, recruit, Admission, Command, Orchestrator, Progress, Stage};
use crate::worker::{lemma_permit_is_released_once, next, Action, Observation, Worker};
use vstd::prelude::*;

verus! {

/// A run in progress.
pub struct Fleet {
    /// The admission controller's books.
    pub admission: Admission,
    /// The orchestrator.
    pub orchestrator: Orchestrator,
    /// The workers created so far.
    pub workers: Seq<Worker>,
}

/// How many of `workers` hold a permit.
pub open spec fn holders(workers: Seq<Worker>) -> int
    decreases workers.len(),
{
    if workers.len() == 0 {
        0
    } else {
        holders(workers.drop_last()) + if workers.last().phase.holds_permit() {
            1int
        } else {
            0int
        }
    }
}

impl Fleet {
    /// A fleet before its first step: no worker, every permit free.
    pub open spec fn initial(o: Orchestrator, limit: usize) -> Fleet {
        Fleet { admission: Admission { limit, held: 0 }, orchestrator: o, workers: Seq::empty() }
    }

    /// The permits that are out: one for each worker that holds one, and
    /// one while the orchestrator creates a client.
    pub open spec fn permits_out(self) -> int {
        holders(self.workers) + if self.orchestrator.stage.holds_permit() {
            1int
        } else {
            0int
        }
    }

    /// The books agree with the permits that are out, and no more are out
    /// than there are.
    pub open spec fn wf(self) -> bool {
        &&& self.admission.wf()
        &&& self.admission.held == self.permits_out()
    }

    /// Whether the orchestrator may take a step on what its driver saw: a
    /// permit is granted only while one is free.
    pub open spec fn admits(self, seen: Progress) -> bool {
        self.orchestrator.stage == Stage::Admitting && seen.ok ==> self.admission.held
            < self.admission.limit
    }

    /// The fleet after a step of the orchestrator: a granted permit is
    /// booked, a created client joins the workers with the permit in hand,
    /// and a permit that is handed back is booked again.
    pub open spec fn orchestrator_steps(self, seen: Progress) -> Fleet {
        let granted: int = if self.orchestrator.stage == Stage::Admitting && seen.ok {
            1
        } else {
            0
        };
        let returned: int = if advance(self.orchestrator, seen).1 == Command::ReleasePermit {
            1
        } else {
            0
        };
        Fleet {
            admission: Admission {
                held: (self.admission.held + granted - returned) as usize,
                ..self.admission
            },
            orchestrator: advance(self.orchestrator, seen).0,
            workers: if self.orchestrator.stage == Stage::Creating && seen.ok {
                self.workers.push(recruit(self.orchestrator))
            } else {
                self.workers
            },
        }
    }

    /// The fleet after a step of worker `i`: a permit that is handed back
    /// is booked.
    pub open spec fn worker_steps(self, i: int, seen: Observation) -> Fleet {
        let returned: int = if next(self.workers[i], seen).1.action == Action::ReleasePermit {
            1
        } else {
            0
        };
        Fleet {
            admission: Admission {
                held: (self.admission.held - returned) as usize,
                ..self.admission
            },
            workers: self.workers.update(i, next(self.workers[i], seen).0),
            ..self
        }
    }
}

proof fn lemma_holders_push(workers: Seq<Worker>, w: Worker)
    ensures
        holders(workers.push(w)) == holders(workers) + if w.phase.holds_permit() {
            1int
        } else {
            0int
        },
{
    assert(workers.push(w).drop_last() =~= workers);
}

proof fn lemma_holders_update(workers: Seq<Worker>, i: int, w: Worker)
    requires
        0 <= i < workers.len(),
    ensures
        holders(workers.update(i, w)) == holders(workers) - (if workers[i].phase.holds_permit() {
            1int
        } else {
            0int
        }) + if w.phase.holds_permit() {
            1int
        } else {
            0int
        },
        0 <= holders(workers) <= workers.len(),
        workers[i].phase.holds_permit() ==> holders(workers) >= 1,
    decreases workers.len(),
{
    let front = workers.drop_last();
    lemma_holders_bounds(front);
    if i == workers.len() - 1 {
        assert(workers.update(i, w).drop_last() =~= front);
    } else {
        lemma_holders_update(front, i, w);
        assert(workers.update(i, w).drop_last() =~= front.update(i, w));
    }
}

proof fn lemma_holders_bounds(workers: Seq<Worker>)
    ensures
        0 <= holders(workers) <= workers.len(),
    decreases workers.len(),
{
    if workers.len() > 0 {
        lemma_holders_bounds(workers.drop_last());
    }
}

/// A fleet starts with its books in order.
pub proof fn lemma_initial_fleet(o: Orchestrator, limit: usize)
    requires
        o.stage == Stage::Spawning,
    ensures
        Fleet::initial(o, limit).wf(),
{
}

/// A step of the orchestrator keeps the books in order.
pub proof fn lemma_orchestrator_keeps_the_books(fleet: Fleet, seen: Progress)
    requires
        fleet.wf(),
        fleet.admits(seen),
    ensures
        fleet.orchestrator_steps(seen).wf(),
        fleet.orchestrator_steps(seen).admission.limit == fleet.admission.limit,
{
    lemma_holders_bounds(fleet.workers);
    lemma_holders_push(fleet.workers, recruit(fleet.orchestrator));
}

/// A step of a worker keeps the books in order.
pub proof fn lemma_worker_keeps_the_books(fleet: Fleet, i: int, seen: Observation)
    requires
        fleet.wf(),
        0 <= i < fleet.workers.len(),
    ensures
        fleet.worker_steps(i, seen).wf(),
        fleet.worker_steps(i, seen).admission.limit == fleet.admission.limit,
{
    lemma_permit_is_released_once(fleet.workers[i], seen);
    lemma_holders_update(fleet.workers, i, next(fleet.workers[i], seen).0);
}

/// With the books in order, no more workers hold a permit than there are
/// permits: the clients that are connecting at any one time are at most as
/// many as the concurrency limit.
pub proof fn lemma_concurrency_is_bounded(fleet: Fleet)
    requires
        fleet.wf(),
    ensures
        holders(fleet.workers) <= fleet.admission.limit,
        fleet.permits_out() <= fleet.admission.limit,
{
    lemma_holders_bounds(fleet.workers);
}

} // verus!
