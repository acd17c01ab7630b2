use vstd::prelude::*;

use crate::converter::JobOutcome;
use crate::jobs::{all_resolvable, build_jobs, job_views, jobs_match, opt_view, ConversionJob};
use crate::path::{copy_string, FilePath};
use crate::scanner::path_views;

verus! {

/// A job that failed: its input and why.
pub struct FailedJob {
    pub input: FilePath,
    pub reason: String,
}

impl View for FailedJob {
    type V = (Seq<Seq<char>>, Seq<char>);

    open spec fn view(&self) -> (Seq<Seq<char>>, Seq<char>) {
        (self.input@, self.reason@)
    }
}

/// The outcomes of a batch split into the number of successes and the failed
/// jobs in submission order.
pub struct BatchSummary {
    pub successes: usize,
    pub failures: Vec<FailedJob>,
}

pub open spec fn failure_views(f: Seq<FailedJob>) -> Seq<(Seq<Seq<char>>, Seq<char>)> {
    f.map_values(|x: FailedJob| x@)
}

pub open spec fn success_count(o: Seq<JobOutcome>) -> nat
    decreases o.len(),
{
    if o.len() == 0 {
        0
    } else {
        success_count(o.drop_last()) + if o.last() is Success {
            1nat
        } else {
            0nat
        }
    }
}

/// The input and reason of each failed job, in submission order.
pub open spec fn failure_list(
    jobs: Seq<(Seq<Seq<char>>, Seq<Seq<char>>)>,
    o: Seq<JobOutcome>,
) -> Seq<(Seq<Seq<char>>, Seq<char>)>
    decreases o.len(),
{
    if o.len() == 0 || jobs.len() != o.len() {
        Seq::empty()
    } else {
        let prev = failure_list(jobs.drop_last(), o.drop_last());
        match o.last() {
            JobOutcome::Success => prev,
            JobOutcome::Failure { reason } => prev.push((jobs.last().0, reason@)),
        }
    }
}

/// The originals that replace mode removes: the input of every job.
pub open spec fn deletion_list(jobs: Seq<(Seq<Seq<char>>, Seq<Seq<char>>)>, replace: bool) -> Seq<
    Seq<Seq<char>>,
> {
    if replace {
        jobs.map_values(|j: (Seq<Seq<char>>, Seq<Seq<char>>)| j.0)
    } else {
        Seq::empty()
    }
}

/// Splits the outcomes of a batch, given job by job, into successes and failures.
pub fn summarize(jobs: &Vec<ConversionJob>, outcomes: &Vec<JobOutcome>) -> (r: BatchSummary)
    requires
        jobs@.len() == outcomes@.len(),
    ensures
        r.successes == success_count(outcomes@),
        failure_views(r.failures@) == failure_list(job_views(jobs@), outcomes@),
        r.successes + r.failures@.len() == outcomes@.len(),
{
    let mut successes: usize = 0;
    let mut failures: Vec<FailedJob> = Vec::new();
    let mut i: usize = 0;
    while i < outcomes.len()
        invariant
            i <= outcomes@.len(),
            jobs@.len() == outcomes@.len(),
            successes == success_count(outcomes@.subrange(0, i as int)),
            failure_views(failures@) == failure_list(
                job_views(jobs@).subrange(0, i as int),
                outcomes@.subrange(0, i as int),
            ),
            successes + failures@.len() == i,
        decreases outcomes@.len() - i,
    {
        let ghost prev = failures@;
        assert(outcomes@.subrange(0, i + 1).drop_last() =~= outcomes@.subrange(0, i as int));
        assert(job_views(jobs@).subrange(0, i + 1).drop_last() =~= job_views(jobs@).subrange(
            0,
            i as int,
        ));
        match &outcomes[i] {
            JobOutcome::Success => {
                successes = successes + 1;
            },
            JobOutcome::Failure { reason } => {
                failures.push(FailedJob { input: jobs[i].input.duplicate(), reason: copy_string(reason) });
                assert(failure_views(failures@) =~= failure_views(prev).push(
                    (jobs@[i as int].input@, reason@),
                ));
            },
        }
        i = i + 1;
    }
    assert(outcomes@.subrange(0, i as int) =~= outcomes@);
    assert(job_views(jobs@).subrange(0, i as int) =~= job_views(jobs@));
    BatchSummary { successes, failures }
}

/// The originals to remove after the batch: in replace mode the input of every
/// job, whatever its outcome; otherwise none.
pub fn files_to_delete(jobs: &Vec<ConversionJob>, replace: bool) -> (r: Vec<FilePath>)
    ensures
        path_views(r@) == deletion_list(job_views(jobs@), replace),
{
    let mut out: Vec<FilePath> = Vec::new();
    if !replace {
        assert(path_views(out@) =~= deletion_list(job_views(jobs@), replace));
        return out;
    }
    let mut i: usize = 0;
    while i < jobs.len()
        invariant
            replace,
            i <= jobs@.len(),
            out@.len() == i,
            forall|k: int| 0 <= k < i ==> (#[trigger] out@[k])@ == jobs@[k].input@,
        decreases jobs@.len() - i,
    {
        out.push(jobs[i].input.duplicate());
        i = i + 1;
    }
    assert(path_views(out@) =~= deletion_list(job_views(jobs@), replace));
    out
}

/// What a directory run does once its files are known.
pub enum BatchPlan {
    /// No image file was found: nothing is converted.
    NoFiles,
    /// Convert the jobs, then remove the listed originals.
    Convert { jobs: Vec<ConversionJob>, delete_after: Vec<FilePath> },
}

/// Plans a directory run over the image files found under `root`: no work
/// where there are none; else one job per file and, in replace mode, every
/// input to remove afterwards. `None` where a file has no name to derive its
/// output from.
pub fn plan_batch(files: &Vec<FilePath>, root: &FilePath, output_dir: Option<&FilePath>, replace: bool) -> (r:
    Option<BatchPlan>)
    ensures
        files@.len() == 0 ==> r matches Some(BatchPlan::NoFiles),
        files@.len() > 0 ==> (r is Some <==> all_resolvable(
            path_views(files@),
            root@,
            opt_view(output_dir),
        )),
        files@.len() > 0 ==> (r matches Some(p) ==> (p matches BatchPlan::Convert {
            jobs,
            delete_after,
        } && jobs_match(job_views(jobs@), path_views(files@), root@, opt_view(output_dir))
            && path_views(delete_after@) == deletion_list(job_views(jobs@), replace))),
{
    if files.len() == 0 {
        return Some(BatchPlan::NoFiles);
    }
    match build_jobs(files, root, output_dir) {
        Some(jobs) => {
            let delete_after = files_to_delete(&jobs, replace);
            Some(BatchPlan::Convert { jobs, delete_after })
        },
        None => None,
    }
}

/// In replace mode a job's input is removed even where its conversion failed.
pub proof fn lemma_failed_input_still_deleted(
    jobs: Seq<(Seq<Seq<char>>, Seq<Seq<char>>)>,
    outcomes: Seq<JobOutcome>,
    i: int,
)
    requires
        jobs.len() == outcomes.len(),
        0 <= i < jobs.len(),
        outcomes[i] is Failure,
    ensures
        deletion_list(jobs, true).contains(jobs[i].0),
{
    assert(deletion_list(jobs, true)[i] == jobs[i].0);
}

} // verus!
