use vstd::prelude::*;

use crate::converter::JobOutcome;
use crate::progress::ProgressTracker;

verus! {

/// How many of the recorded outcomes are present.
pub open spec fn count_done(s: Seq<Option<JobOutcome>>) -> nat
    decreases s.len(),
{
    if s.len() == 0 {
        0
    } else {
        count_done(s.drop_last()) + if s.last() is Some {
            1nat
        } else {
            0nat
        }
    }
}

proof fn lemma_count_update(s: Seq<Option<JobOutcome>>, i: int, x: JobOutcome)
    requires
        0 <= i < s.len(),
        s[i] is None,
    ensures
        count_done(s.update(i, Some(x))) == count_done(s) + 1,
    decreases s.len(),
{
    let t = s.update(i, Some(x));
    if i == s.len() - 1 {
        assert(t.drop_last() =~= s.drop_last());
    } else {
        assert(t.drop_last() =~= s.drop_last().update(i, Some(x)));
        lemma_count_update(s.drop_last(), i, x);
    }
}

proof fn lemma_count_bound(s: Seq<Option<JobOutcome>>, k: int)
    requires
        0 <= k,
        forall|j: int| k <= j < s.len() ==> (#[trigger] s[j]) is None,
    ensures
        count_done(s) <= k,
        count_done(s) <= s.len(),
    decreases s.len(),
{
    if s.len() > 0 {
        lemma_count_bound(s.drop_last(), k);
        if s.len() > k {
            assert(s[s.len() - 1] is None);
        }
    }
}

proof fn lemma_count_full(s: Seq<Option<JobOutcome>>)
    requires
        count_done(s) == s.len(),
    ensures
        forall|i: int| 0 <= i < s.len() ==> (#[trigger] s[i]) is Some,
    decreases s.len(),
{
    if s.len() > 0 {
        lemma_count_bound(s.drop_last(), s.len() - 1);
        lemma_count_full(s.drop_last());
        assert forall|i: int| 0 <= i < s.len() implies (#[trigger] s[i]) is Some by {
            if i < s.len() - 1 {
                assert(s.drop_last()[i] == s[i]);
            }
        }
    }
}

/// Runs a batch of jobs under a limit on how many run at once.
///
/// Jobs are started in order while fewer than the limit are running; each
/// outcome is recorded at its job's index whatever the order in which jobs
/// finish, and every finished job, failed or not, advances the progress count.
pub struct Scheduler {
    limit: usize,
    next: usize,
    running: usize,
    completed: usize,
    outcomes: Vec<Option<JobOutcome>>,
    tracker: ProgressTracker,
}

impl Scheduler {
    pub closed spec fn limit(&self) -> nat {
        self.limit as nat
    }

    pub closed spec fn job_count(&self) -> nat {
        self.outcomes@.len()
    }

    /// How many jobs have been started: jobs `0 .. started()`.
    pub closed spec fn started(&self) -> nat {
        self.next as nat
    }

    /// How many started jobs have not finished.
    pub closed spec fn running(&self) -> nat {
        self.running as nat
    }

    /// The outcome recorded for each job, `None` while it has not finished.
    pub closed spec fn results(&self) -> Seq<Option<JobOutcome>> {
        self.outcomes@
    }

    pub closed spec fn progress(&self) -> nat {
        self.tracker.position()
    }

    pub closed spec fn wf(&self) -> bool {
        &&& 1 <= self.limit
        &&& self.running <= self.limit
        &&& self.next <= self.outcomes@.len()
        &&& self.completed == count_done(self.outcomes@)
        &&& self.running + self.completed == self.next
        &&& forall|j: int| self.next <= j < self.outcomes@.len() ==> (#[trigger] self.outcomes@[j]) is None
        &&& self.tracker.wf()
        &&& self.tracker.total() == self.outcomes@.len()
        &&& self.tracker.position() == self.completed
    }

    /// Whether every job has finished.
    pub open spec fn done(&self) -> bool {
        self.progress() == self.job_count()
    }

    /// A scheduler for `job_count` jobs, at most `limit` of them at once,
    /// counting on `tracker`.
    pub fn new(job_count: usize, limit: usize, tracker: ProgressTracker) -> (r: Scheduler)
        requires
            limit >= 1,
            tracker.wf(),
            tracker.total() == job_count,
            tracker.position() == 0,
        ensures
            r.wf(),
            r.limit() == limit,
            r.job_count() == job_count,
            r.started() == 0,
            r.running() == 0,
            r.progress() == 0,
            forall|j: int| 0 <= j < job_count ==> (#[trigger] r.results()[j]) is None,
    {
        let mut outcomes: Vec<Option<JobOutcome>> = Vec::new();
        let mut i: usize = 0;
        while i < job_count
            invariant
                i <= job_count,
                outcomes@.len() == i,
                forall|j: int| 0 <= j < i ==> (#[trigger] outcomes@[j]) is None,
            decreases job_count - i,
        {
            outcomes.push(None);
            i = i + 1;
        }
        proof {
            lemma_count_bound(outcomes@, 0);
        }
        Scheduler { limit, next: 0, running: 0, completed: 0, outcomes, tracker }
    }

    /// Starts the next job when one is waiting and fewer than the limit are
    /// running, and returns its index.
    pub fn start_next(&mut self) -> (r: Option<usize>)
        requires
            old(self).wf(),
        ensures
            final(self).wf(),
            final(self).limit() == old(self).limit(),
            final(self).job_count() == old(self).job_count(),
            final(self).results() == old(self).results(),
            final(self).progress() == old(self).progress(),
            old(self).running() < old(self).limit() && old(self).started() < old(self).job_count()
                ==> r == Some(old(self).started() as usize) && final(self).started()
                == old(self).started() + 1 && final(self).running() == old(self).running() + 1,
            !(old(self).running() < old(self).limit() && old(self).started()
                < old(self).job_count()) ==> r is None && final(self).started()
                == old(self).started() && final(self).running() == old(self).running(),
    {
        if self.running < self.limit && self.next < self.outcomes.len() {
            let i = self.next;
            self.next = self.next + 1;
            self.running = self.running + 1;
            Some(i)
        } else {
            None
        }
    }

    /// Records the outcome of started job `index`, which has just finished,
    /// frees its slot and advances the progress count by one.
    pub fn complete(&mut self, index: usize, outcome: JobOutcome)
        requires
            old(self).wf(),
            index < old(self).started(),
            old(self).results()[index as int] is None,
        ensures
            final(self).wf(),
            final(self).limit() == old(self).limit(),
            final(self).job_count() == old(self).job_count(),
            final(self).results() == old(self).results().update(index as int, Some(outcome)),
            final(self).started() == old(self).started(),
            final(self).running() + 1 == old(self).running(),
            final(self).progress() == old(self).progress() + 1,
    {
        proof {
            lemma_count_update(self.outcomes@, index as int, outcome);
            lemma_count_bound(self.outcomes@, self.next as int);
            if self.running == 0 {
                // every started job has finished, including `index`
                lemma_count_bound(self.outcomes@.update(index as int, Some(outcome)), self.next as int);
            }
        }
        self.outcomes[index] = Some(outcome);
        self.running = self.running - 1;
        self.completed = self.completed + 1;
        self.tracker.inc(1);
    }

    /// Whether every job has finished.
    pub fn is_done(&self) -> (r: bool)
        requires
            self.wf(),
        ensures
            r == self.done(),
    {
        self.tracker.get_position() == self.tracker.get_total()
    }

    /// Whether job `index` has been started and has not finished.
    pub fn is_running(&self, index: usize) -> (r: bool)
        requires
            self.wf(),
        ensures
            r == (index < self.started() && self.results()[index as int] is None),
    {
        index < self.next && self.outcomes[index].is_none()
    }

    /// How many started jobs have not finished.
    pub fn running_count(&self) -> (r: usize)
        ensures
            r == self.running(),
    {
        self.running
    }

    /// How many finished jobs the progress count holds.
    pub fn progress_count(&self) -> (r: u64)
        ensures
            r == self.progress(),
    {
        self.tracker.get_position()
    }

    /// Whether some job is running.
    pub fn has_running(&self) -> (r: bool)
        requires
            self.wf(),
        ensures
            r == (self.running() > 0),
    {
        self.running > 0
    }

    /// The outcomes of all jobs, in the order in which the jobs were given.
    pub fn into_outcomes(self) -> (r: Vec<JobOutcome>)
        requires
            self.wf(),
            self.done(),
        ensures
            r@.len() == self.job_count(),
            forall|i: int| 0 <= i < r@.len() ==> self.results()[i] == Some(#[trigger] r@[i]),
    {
        proof {
            lemma_count_full(self.outcomes@);
        }
        let mut tracker = self.tracker;
        tracker.finish();
        let ghost all = self.outcomes@;
        let mut rest = self.outcomes;
        let mut out: Vec<JobOutcome> = Vec::new();
        while rest.len() > 0
            invariant
                out@.len() + rest@.len() == all.len(),
                rest@ == all.subrange(out@.len() as int, all.len() as int),
                forall|i: int| 0 <= i < all.len() ==> (#[trigger] all[i]) is Some,
                forall|i: int| 0 <= i < out@.len() ==> all[i] == Some(#[trigger] out@[i]),
            decreases rest@.len(),
        {
            let x = rest.remove(0);
            assert(x == all[out@.len() as int]);
            match x {
                Some(o) => {
                    out.push(o);
                },
                None => {
                    assert(false);
                },
            }
            assert(rest@ =~= all.subrange(out@.len() as int, all.len() as int));
        }
        out
    }
}

/// At every reachable state no more jobs are running than the limit allows.
pub proof fn lemma_running_within_limit(s: &Scheduler)
    requires
        s.wf(),
    ensures
        s.running() <= s.limit(),
{
}

/// The outcomes recorded do not depend on the order in which two running
/// jobs finish: each lands at its own job's index.
pub proof fn lemma_completion_order_irrelevant(
    s: &Scheduler,
    i: int,
    j: int,
    a: JobOutcome,
    b: JobOutcome,
)
    requires
        s.wf(),
        0 <= i < s.started(),
        0 <= j < s.started(),
        i != j,
        s.results()[i] is None,
        s.results()[j] is None,
    ensures
        s.results().update(i, Some(a)).update(j, Some(b)) == s.results().update(j, Some(b)).update(
            i,
            Some(a),
        ),
        s.results().update(i, Some(a)).update(j, Some(b))[i] == Some(a),
        s.results().update(i, Some(a)).update(j, Some(b))[j] == Some(b),
{
    assert(s.results().update(i, Some(a)).update(j, Some(b)) =~= s.results().update(j, Some(b)).update(
        i,
        Some(a),
    ));
}

/// Until every job has finished there is always a job to start or a running
/// one to wait for, so a batch never stops early.
pub proof fn lemma_batch_makes_progress(s: &Scheduler)
    requires
        s.wf(),
        !s.done(),
    ensures
        (s.running() < s.limit() && s.started() < s.job_count()) || s.running() > 0,
{
    lemma_count_bound(s.outcomes@, s.next as int);
}

/// Once the batch is done, every job has been started and has finished, and
/// the progress count equals the number of jobs, failed ones included.
pub proof fn lemma_done_means_all_finished(s: &Scheduler)
    requires
        s.wf(),
        s.done(),
    ensures
        s.progress() == s.job_count(),
        s.started() == s.job_count(),
        s.running() == 0,
        forall|i: int| 0 <= i < s.job_count() ==> (#[trigger] s.results()[i]) is Some,
{
    lemma_count_full(s.outcomes@);
    lemma_count_bound(s.outcomes@, s.next as int);
}

/// What every reachable state satisfies: one result slot per job, no more
/// jobs started than there are, each started job either finished or running,
/// and a progress count that never passes the number of jobs.
pub proof fn lemma_state_bounds(s: &Scheduler)
    requires
        s.wf(),
    ensures
        s.results().len() == s.job_count(),
        s.started() <= s.job_count(),
        s.progress() + s.running() == s.started(),
        s.progress() <= s.job_count(),
        s.running() <= s.limit(),
        forall|j: int| s.started() <= j < s.job_count() ==> (#[trigger] s.results()[j]) is None,
{
}

/// When no job can be started and none is running, the batch is done: a
/// driver that starts jobs while it can and waits for running ones only stops
/// once every job has finished.
pub proof fn lemma_idle_means_done(s: &Scheduler)
    requires
        s.wf(),
        !(s.running() < s.limit() && s.started() < s.job_count()),
        s.running() == 0,
    ensures
        s.done(),
        s.started() == s.job_count(),
        s.progress() == s.job_count(),
{
    lemma_count_bound(s.outcomes@, s.next as int);
}

} // verus!
