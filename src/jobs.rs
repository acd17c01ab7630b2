use vstd::prelude::*;

use crate::path::{
    file_name_of, is_absolute, join_of, root_part, stem_of_name, strip_prefix_of, webp_suffix,
    with_webp_extension, FilePath,
};
use crate::scanner::{is_image_file, is_image_path, path_views};

verus! {

/// One file to convert: where it is read from and where the result goes.
pub struct ConversionJob {
    pub input: FilePath,
    pub output: FilePath,
}

impl View for ConversionJob {
    type V = (Seq<Seq<char>>, Seq<Seq<char>>);

    open spec fn view(&self) -> (Seq<Seq<char>>, Seq<Seq<char>>) {
        (self.input@, self.output@)
    }
}

pub open spec fn job_views(jobs: Seq<ConversionJob>) -> Seq<(Seq<Seq<char>>, Seq<Seq<char>>)> {
    jobs.map_values(|j: ConversionJob| j@)
}

/// Output under an output directory: the input's path relative to the scanned
/// root (the whole input where it lies elsewhere), with a `.webp` extension,
/// joined to the output directory.
pub open spec fn output_in_dir(
    input: Seq<Seq<char>>,
    root: Seq<Seq<char>>,
    out_dir: Seq<Seq<char>>,
) -> Option<Seq<Seq<char>>> {
    let rel = match strip_prefix_of(input, root) {
        Some(r) => r,
        None => input,
    };
    match with_webp_extension(rel) {
        Some(r) => Some(join_of(out_dir, r)),
        None => None,
    }
}

/// Output of a job found under `root`: under the output directory if one is
/// given, else beside the input with the extension swapped.
pub open spec fn job_output(
    input: Seq<Seq<char>>,
    root: Seq<Seq<char>>,
    out_dir: Option<Seq<Seq<char>>>,
) -> Option<Seq<Seq<char>>> {
    match out_dir {
        Some(d) => output_in_dir(input, root, d),
        None => with_webp_extension(input),
    }
}

pub open spec fn opt_view(p: Option<&FilePath>) -> Option<Seq<Seq<char>>> {
    match p {
        Some(q) => Some(q@),
        None => None,
    }
}

pub open spec fn owned_opt_view(p: Option<FilePath>) -> Option<Seq<Seq<char>>> {
    match p {
        Some(q) => Some(q@),
        None => None,
    }
}

/// The output path for `input`, found while scanning `root`.
pub fn job_output_path(input: &FilePath, root: &FilePath, output_dir: Option<&FilePath>) -> (r:
    Option<FilePath>)
    ensures
        r matches Some(q) ==> job_output(input@, root@, opt_view(output_dir)) == Some(q@),
        r is None ==> job_output(input@, root@, opt_view(output_dir)) is None,
{
    match output_dir {
        Some(dir) => {
            let rel = match input.strip_prefix(root) {
                Some(r) => r,
                None => input.duplicate(),
            };
            match rel.with_webp_extension() {
                Some(r) => Some(dir.join(&r)),
                None => None,
            }
        },
        None => input.with_webp_extension(),
    }
}

/// Whether every file has an output path.
pub open spec fn all_resolvable(
    files: Seq<Seq<Seq<char>>>,
    root: Seq<Seq<char>>,
    out_dir: Option<Seq<Seq<char>>>,
) -> bool {
    forall|i: int| 0 <= i < files.len() ==> (#[trigger] job_output(files[i], root, out_dir)) is Some
}

/// The jobs for the files, in order, each with its derived output path.
pub open spec fn jobs_match(
    jobs: Seq<(Seq<Seq<char>>, Seq<Seq<char>>)>,
    files: Seq<Seq<Seq<char>>>,
    root: Seq<Seq<char>>,
    out_dir: Option<Seq<Seq<char>>>,
) -> bool {
    &&& jobs.len() == files.len()
    &&& forall|i: int|
        0 <= i < files.len() ==> (#[trigger] jobs[i]).0 == files[i] && job_output(
            files[i],
            root,
            out_dir,
        ) == Some(jobs[i].1)
}

/// One job per file, in the order of the files; `None` where some file has no
/// file name to derive an output from.
pub fn build_jobs(files: &Vec<FilePath>, root: &FilePath, output_dir: Option<&FilePath>) -> (r:
    Option<Vec<ConversionJob>>)
    ensures
        r is Some <==> all_resolvable(path_views(files@), root@, opt_view(output_dir)),
        r matches Some(jobs) ==> jobs_match(
            job_views(jobs@),
            path_views(files@),
            root@,
            opt_view(output_dir),
        ),
{
    let mut jobs: Vec<ConversionJob> = Vec::new();
    let mut i: usize = 0;
    while i < files.len()
        invariant
            i <= files@.len(),
            jobs@.len() == i,
            forall|k: int|
                0 <= k < i ==> (#[trigger] jobs@[k]).input@ == files@[k]@ && job_output(
                    files@[k]@,
                    root@,
                    opt_view(output_dir),
                ) == Some(jobs@[k].output@),
        decreases files@.len() - i,
    {
        match job_output_path(&files[i], root, output_dir) {
            Some(out) => {
                jobs.push(ConversionJob { input: files[i].duplicate(), output: out });
            },
            None => {
                assert(job_output(path_views(files@)[i as int], root@, opt_view(output_dir)) is None);
                return None;
            },
        }
        i = i + 1;
    }
    assert(all_resolvable(path_views(files@), root@, opt_view(output_dir))) by {
        assert forall|k: int| 0 <= k < files@.len() implies (#[trigger] job_output(
            path_views(files@)[k],
            root@,
            opt_view(output_dir),
        )) is Some by {
            assert(jobs@[k].input@ == files@[k]@);
        }
    }
    assert(jobs_match(job_views(jobs@), path_views(files@), root@, opt_view(output_dir))) by {
        assert forall|k: int| 0 <= k < files@.len() implies (#[trigger] job_views(jobs@)[k]).0
            == path_views(files@)[k] && job_output(
            path_views(files@)[k],
            root@,
            opt_view(output_dir),
        ) == Some(job_views(jobs@)[k].1) by {
            assert(jobs@[k].input@ == files@[k]@);
        }
    }
    Some(jobs)
}

/// Why an invocation stops before any job runs.
#[derive(PartialEq, Eq, Structural, Debug, Clone, Copy)]
pub enum InputError {
    /// The input path does not exist.
    Missing,
    /// The input is a file whose extension is not a supported image one.
    NotAnImage,
    /// The input exists but is not a directory.
    NotADirectory,
}

/// What to do for a single file: the one job, and whether the original is
/// removed once it has been converted.
pub struct SingleFilePlan {
    pub job: ConversionJob,
    pub delete_original: bool,
}

/// Output of a single-file run: the given output path, else the input with its
/// extension swapped.
pub open spec fn single_output(input: Seq<Seq<char>>, output: Option<Seq<Seq<char>>>) -> Seq<
    Seq<char>,
> {
    match output {
        Some(o) => o,
        None => with_webp_extension(input).unwrap(),
    }
}

pub proof fn lemma_image_has_webp_output(p: Seq<Seq<char>>)
    requires
        is_image_path(p),
    ensures
        with_webp_extension(p) is Some,
{
}

/// Decides a single-file run: the input must exist and be an image file.
pub fn plan_single_file(input: &FilePath, exists: bool, output: Option<FilePath>, replace: bool) -> (r:
    Result<SingleFilePlan, InputError>)
    ensures
        !exists ==> r == Err::<SingleFilePlan, InputError>(InputError::Missing),
        exists && !is_image_path(input@) ==> r == Err::<SingleFilePlan, InputError>(
            InputError::NotAnImage,
        ),
        exists && is_image_path(input@) ==> (r matches Ok(plan) && plan.job.input@ == input@
            && plan.job.output@ == single_output(input@, owned_opt_view(output))
            && plan.delete_original == replace),
{
    if !exists {
        return Err(InputError::Missing);
    }
    if !is_image_file(input) {
        return Err(InputError::NotAnImage);
    }
    let out = match output {
        Some(o) => o,
        None => match input.with_webp_extension() {
            Some(o) => o,
            None => {
                proof {
                    lemma_image_has_webp_output(input@);
                }
                return Err(InputError::NotAnImage);
            },
        },
    };
    Ok(SingleFilePlan { job: ConversionJob { input: input.duplicate(), output: out }, delete_original: replace })
}

/// Decides whether a directory run may start.
pub fn check_directory(exists: bool, is_dir: bool) -> (r: Result<(), InputError>)
    ensures
        !exists ==> r == Err::<(), InputError>(InputError::Missing),
        exists && !is_dir ==> r == Err::<(), InputError>(InputError::NotADirectory),
        exists && is_dir ==> r is Ok,
{
    if !exists {
        Err(InputError::Missing)
    } else if !is_dir {
        Err(InputError::NotADirectory)
    } else {
        Ok(())
    }
}

/// Under an output directory, a file found at `root` followed by the relative
/// components `rel` is written at the output directory followed by the same
/// components, with only the file name's extension changed.
pub proof fn lemma_relative_structure_preserved(
    root: Seq<Seq<char>>,
    rel: Seq<Seq<char>>,
    out_dir: Seq<Seq<char>>,
)
    requires
        file_name_of(rel) is Some,
        !is_absolute(rel),
    ensures
        output_in_dir(root + rel, root, out_dir) == Some(out_dir + with_webp_extension(rel).unwrap()),
        with_webp_extension(rel).unwrap().len() == rel.len(),
        forall|k: int| 0 <= k < rel.len() - 1 ==> #[trigger] with_webp_extension(rel).unwrap()[k] == rel[k],
{
    let p = root + rel;
    assert(p.subrange(0, root.len() as int) =~= root);
    assert(p.subrange(root.len() as int, p.len() as int) =~= rel);
    let w = with_webp_extension(rel).unwrap();
    if w.len() > 0 && w[0] == root_part() {
        if rel.len() == 1 {
            assert(w[0] == stem_of_name(rel.last()) + webp_suffix());
            assert((stem_of_name(rel.last()) + webp_suffix()).len() > 1);
        } else {
            assert(w[0] == rel[0]);
        }
    }
}

} // verus!
