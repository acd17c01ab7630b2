use webp_converter::{
    files_to_delete, plan_batch, summarize, Args, BatchPlan, CodecArg, ConversionJob, Converter, FilePath,
    JobOutcome, ProgressTracker, Scheduler,
};

fn p(parts: &[&str]) -> FilePath {
    FilePath::new(parts.iter().map(|s| s.to_string()).collect())
}

fn job(name: &str) -> ConversionJob {
    ConversionJob { input: p(&["d", name]), output: p(&["d", "out.webp"]) }
}

fn fail(reason: &str) -> JobOutcome {
    JobOutcome::Failure { reason: reason.to_string() }
}

fn is_failure_with(o: &JobOutcome, text: &str) -> bool {
    matches!(o, JobOutcome::Failure { reason } if reason == text)
}

/// Runs `n` jobs under `limit`, finishing running jobs in an order drawn from
/// `seed`; job `i` fails when `i % 3 == 1`. Returns the outcomes, the largest
/// number running at once and the final progress count.
fn run_batch(n: usize, limit: usize, seed: u64) -> (Vec<JobOutcome>, usize, u64) {
    let mut s = Scheduler::new(n, limit, ProgressTracker::new(n as u64));
    let mut running: Vec<usize> = Vec::new();
    let mut rng = seed;
    let mut peak = 0;
    loop {
        while let Some(i) = s.start_next() {
            running.push(i);
        }
        peak = peak.max(s.running_count());
        if running.is_empty() {
            break;
        }
        rng = rng.wrapping_mul(6364136223846793005).wrapping_add(1442695040888963407);
        let k = ((rng >> 33) as usize) % running.len();
        let i = running.swap_remove(k);
        assert!(s.is_running(i));
        let outcome = if i % 3 == 1 { fail(&format!("job {}", i)) } else { JobOutcome::Success };
        s.complete(i, outcome);
    }
    assert!(s.is_done());
    let progress = s.progress_count();
    (s.into_outcomes(), peak, progress)
}

#[test]
fn never_more_running_than_limit() {
    for seed in 0..20 {
        let (_, peak, _) = run_batch(10, 3, seed);
        assert!(peak <= 3);
        assert_eq!(peak, 3);
    }
    let (_, peak, _) = run_batch(2, 4, 7);
    assert_eq!(peak, 2);
}

#[test]
fn outcomes_follow_submission_order() {
    for seed in 0..20 {
        let (outcomes, _, _) = run_batch(9, 2, seed);
        assert_eq!(outcomes.len(), 9);
        for (i, o) in outcomes.iter().enumerate() {
            if i % 3 == 1 {
                assert!(is_failure_with(o, &format!("job {}", i)));
            } else {
                assert!(matches!(o, JobOutcome::Success));
            }
        }
    }
}

#[test]
fn mixed_batch_runs_to_the_end() {
    let (outcomes, _, progress) = run_batch(7, 1, 3);
    assert_eq!(outcomes.len(), 7);
    assert_eq!(progress, 7);
}

#[test]
fn scheduler_start_and_complete_steps() {
    let mut s = Scheduler::new(3, 2, ProgressTracker::new(3));
    assert_eq!(s.start_next(), Some(0));
    assert_eq!(s.start_next(), Some(1));
    assert_eq!(s.start_next(), None);
    assert!(s.has_running());
    s.complete(1, fail("bad"));
    assert!(!s.is_running(1));
    assert!(s.is_running(0));
    assert_eq!(s.progress_count(), 1);
    assert_eq!(s.start_next(), Some(2));
    s.complete(2, JobOutcome::Success);
    s.complete(0, JobOutcome::Success);
    assert_eq!(s.start_next(), None);
    assert!(s.is_done());
    let out = s.into_outcomes();
    assert!(matches!(out[0], JobOutcome::Success));
    assert!(is_failure_with(&out[1], "bad"));
    assert!(matches!(out[2], JobOutcome::Success));
}

#[test]
fn empty_batch_is_done_at_once() {
    let mut s = Scheduler::new(0, 4, ProgressTracker::new(0));
    assert_eq!(s.start_next(), None);
    assert!(s.is_done());
    assert!(s.into_outcomes().is_empty());
}

#[test]
fn summary_partitions_outcomes() {
    let jobs = vec![job("a.png"), job("b.png"), job("c.png"), job("d.png")];
    let outcomes = vec![JobOutcome::Success, fail("x"), JobOutcome::Success, fail("y")];
    let s = summarize(&jobs, &outcomes);
    assert_eq!(s.successes, 2);
    assert_eq!(s.failures.len(), 2);
    assert_eq!(s.failures[0].input.parts, vec!["d".to_string(), "b.png".to_string()]);
    assert_eq!(s.failures[0].reason, "x");
    assert_eq!(s.failures[1].input.parts, vec!["d".to_string(), "d.png".to_string()]);
    assert_eq!(s.failures[1].reason, "y");
}

#[test]
fn replace_deletes_failed_inputs_too() {
    let jobs = vec![job("a.png"), job("b.png")];
    let outcomes = vec![JobOutcome::Success, fail("codec")];
    let summary = summarize(&jobs, &outcomes);
    assert_eq!(summary.failures.len(), 1);
    let del = files_to_delete(&jobs, true);
    assert_eq!(del.len(), 2);
    assert_eq!(del[1].parts, vec!["d".to_string(), "b.png".to_string()]);
}

#[test]
fn no_replace_deletes_nothing() {
    let jobs = vec![job("a.png")];
    assert!(files_to_delete(&jobs, false).is_empty());
}

#[test]
fn empty_scan_plans_no_work() {
    let plan = plan_batch(&vec![], &p(&["root"]), None, true).unwrap();
    assert!(matches!(plan, BatchPlan::NoFiles));
}

#[test]
fn plan_batch_with_replace() {
    let files = vec![p(&["root", "a.png"]), p(&["root", "b.jpg"])];
    match plan_batch(&files, &p(&["root"]), None, true).unwrap() {
        BatchPlan::Convert { jobs, delete_after } => {
            assert_eq!(jobs.len(), 2);
            assert_eq!(jobs[1].output.parts, vec!["root".to_string(), "b.webp".to_string()]);
            assert_eq!(delete_after.len(), 2);
        }
        BatchPlan::NoFiles => panic!("expected jobs"),
    }
}

#[test]
fn converter_outcomes() {
    assert_eq!(Converter::new(80).quality, 80);
    assert!(matches!(Converter::outcome_of_run(true, true, String::new()), JobOutcome::Success));
    assert!(is_failure_with(&Converter::outcome_of_run(true, false, "boom".to_string()), "boom"));
    assert!(is_failure_with(&Converter::outcome_of_run(false, false, "missing".to_string()), "missing"));
}

#[test]
fn progress_counts_up() {
    let mut t = ProgressTracker::new(3);
    assert_eq!(t.get_message(), "");
    assert!(!t.is_finished());
    t.set_message("Converting files...");
    assert_eq!(t.get_message(), "Converting files...");
    assert_eq!(t.get_position(), 0);
    t.inc(2);
    t.inc(1);
    assert_eq!(t.get_position(), 3);
    assert_eq!(t.get_total(), 3);
    assert_eq!(t.get_message(), "Converting files...");
    t.finish();
    assert!(t.is_finished());
    assert_eq!(t.get_position(), 3);
    assert_eq!(t.get_message(), "Converting files...");
}

#[test]
fn args_validity() {
    let mut a = Args {
        input: "in".to_string(),
        output: None,
        quality: 80,
        recursive: false,
        concurrent: 4,
        replace: false,
    };
    assert!(a.is_valid());
    a.concurrent = 0;
    assert!(!a.is_valid());
    a.concurrent = 1;
    a.quality = 101;
    assert!(!a.is_valid());
}

#[test]
fn quality_in_decimal() {
    assert_eq!(Converter::new(0).quality_text(), "0");
    assert_eq!(Converter::new(7).quality_text(), "7");
    assert_eq!(Converter::new(80).quality_text(), "80");
    assert_eq!(Converter::new(100).quality_text(), "100");
    assert_eq!(Converter::new(255).quality_text(), "255");
}

fn text_is(a: &CodecArg, t: &str) -> bool {
    matches!(a, CodecArg::Text(x) if x == t)
}

#[test]
fn codec_arguments_in_order() {
    let args = Converter::new(80).codec_args();
    assert_eq!(args.len(), 6);
    assert!(text_is(&args[0], "-i"));
    assert!(matches!(args[1], CodecArg::InputPath));
    assert!(text_is(&args[2], "-quality"));
    assert!(text_is(&args[3], "80"));
    assert!(text_is(&args[4], "-y"));
    assert!(matches!(args[5], CodecArg::OutputPath));
}
