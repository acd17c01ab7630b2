//! Batch conversion of image files to WebP: finding the files, deriving where
//! each result goes, running the conversions under a limit on how many run at
//! once, and summing up their outcomes.
use vstd::prelude::*;

pub mod cli;
pub mod path;
pub mod scanner;
pub mod jobs;
pub mod progress;
pub mod converter;
pub mod scheduler;
pub mod batch;

pub use batch::{files_to_delete, plan_batch, summarize, BatchPlan, BatchSummary, FailedJob};
pub use cli::Args;
pub use converter::{CodecArg, Converter, JobOutcome};
pub use jobs::{
    build_jobs, check_directory, job_output_path, plan_single_file, ConversionJob, InputError,
    SingleFilePlan,
};
pub use path::FilePath;
pub use progress::ProgressTracker;
pub use scanner::{is_image_file, select_image_files, ScanEntry};
pub use scheduler::Scheduler;

verus! {

} // verus!
