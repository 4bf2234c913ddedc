//! The bookkeeping of a fixed-size worker pool: the queue of submitted jobs,
//! whether it still takes jobs, and how many it has handed out. The threads
//! that run the jobs hold one `PoolState` behind a lock; each job is handed
//! to exactly one of them, oldest first.
use vstd::prelude::*;

verus! {

/// What a pool's bookkeeping holds.
pub struct PoolView<J> {
    pub workers: nat,
    /// Jobs submitted and not handed out yet, oldest first.
    pub pending: Seq<J>,
    /// How many jobs have been handed out.
    pub claimed: nat,
    /// Whether jobs are still taken.
    pub open: bool,
}

/// How many jobs a pool has taken in all.
pub open spec fn submitted<J>(v: PoolView<J>) -> nat {
    v.claimed + v.pending.len()
}

/// The queue and lifecycle of a worker pool.
pub struct PoolState<J> {
    workers: usize,
    jobs: Vec<J>,
    open: bool,
    claimed: Ghost<nat>,
}

impl<J> View for PoolState<J> {
    type V = PoolView<J>;

    closed spec fn view(&self) -> PoolView<J> {
        PoolView { workers: self.workers as nat, pending: self.jobs@, claimed: self.claimed@, open: self.open }
    }
}

/// Why a job was not taken.
#[derive(Clone, Copy, Debug, PartialEq, Eq, Structural)]
pub enum SubmitError {
    /// The pool has begun to shut down.
    ShutDown,
}

/// What a worker gets when it asks for work.
pub enum Claim<J> {
    /// The oldest pending job, now this worker's alone.
    Job(J),
    /// Nothing is pending yet; ask again once a job is submitted.
    Wait,
    /// The pool is shut down and every job has been handed out: stop.
    Closed,
}

impl<J> PoolState<J> {
    /// An open pool for `workers` workers, with nothing queued; `None` for
    /// zero workers, so a pool without workers never takes a job.
    pub fn new(workers: usize) -> (r: Option<PoolState<J>>)
        ensures
            workers == 0 <==> r is None,
            match r {
                Some(p) => p@ == PoolView::<J> {
                    workers: workers as nat,
                    pending: Seq::empty(),
                    claimed: 0,
                    open: true,
                },
                None => true,
            },
    {
        if workers == 0 {
            None
        } else {
            Some(PoolState { workers, jobs: Vec::new(), open: true, claimed: Ghost(0) })
        }
    }

    /// The number of workers the pool was made for.
    pub fn workers(&self) -> (r: usize)
        ensures
            r == self@.workers,
    {
        self.workers
    }

    /// Queues a job behind those already pending; refused once the pool
    /// has begun to shut down.
    pub fn submit(&mut self, job: J) -> (r: Result<(), SubmitError>)
        ensures
            old(self)@.open ==> r is Ok && final(self)@ == (PoolView {
                pending: old(self)@.pending.push(job),
                ..old(self)@
            }),
            !old(self)@.open ==> r == Err::<(), SubmitError>(SubmitError::ShutDown) && final(self)@
                == old(self)@,
    {
        if self.open {
            self.jobs.push(job);
            Ok(())
        } else {
            Err(SubmitError::ShutDown)
        }
    }

    /// Hands out the oldest pending job and removes it from the queue, so
    /// that no other worker can get it; `Wait` when nothing is pending and
    /// the pool is open; `Closed` when nothing is pending and the pool is
    /// shut down, by then every job ever submitted has been handed out.
    pub fn claim(&mut self) -> (r: Claim<J>)
        ensures
            old(self)@.pending.len() > 0 ==> (r matches Claim::Job(j) && j == old(self)@.pending[0])
                && final(self)@ == (PoolView {
                pending: old(self)@.pending.drop_first(),
                claimed: old(self)@.claimed + 1,
                ..old(self)@
            }),
            old(self)@.pending.len() == 0 ==> final(self)@ == old(self)@ && (if old(self)@.open {
                r is Wait
            } else {
                r is Closed
            }),
            r is Closed ==> !final(self)@.open && final(self)@.claimed == submitted(final(self)@),
    {
        if self.jobs.len() > 0 {
            let job = self.jobs.remove(0);
            self.claimed = Ghost(self.claimed@ + 1);
            Claim::Job(job)
        } else if self.open {
            Claim::Wait
        } else {
            Claim::Closed
        }
    }

    /// Stops taking jobs. Jobs already pending are still handed out.
    pub fn shutdown(&mut self)
        ensures
            final(self)@ == (PoolView { open: false, ..old(self)@ }),
    {
        self.open = false;
    }

    /// Whether jobs are still taken.
    pub fn is_open(&self) -> (r: bool)
        ensures
            r == self@.open,
    {
        self.open
    }

    /// How many jobs are waiting.
    pub fn pending(&self) -> (r: usize)
        ensures
            r == self@.pending.len(),
    {
        self.jobs.len()
    }
}

/// The pool after `n` claims that each found a job pending.
pub open spec fn after_claims<J>(v: PoolView<J>, n: nat) -> PoolView<J> {
    PoolView { pending: v.pending.skip(n as int), claimed: v.claimed + n, ..v }
}

/// Every submitted job is handed out exactly once: `n` claims hand out the
/// first `n` pending jobs in order of submission, and those jobs together
/// with the ones still pending are the pending jobs of before, each once;
/// no job is lost or added.
pub proof fn law_each_job_once<J>(v: PoolView<J>, n: nat)
    requires
        n <= v.pending.len(),
    ensures
        v.pending.take(n as int) + after_claims(v, n).pending == v.pending,
        submitted(after_claims(v, n)) == submitted(v),
{
    assert(v.pending.take(n as int) + v.pending.skip(n as int) =~= v.pending);
}

} // verus!
