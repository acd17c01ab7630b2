use webp_converter::{
    build_jobs, check_directory, is_image_file, job_output_path, plan_single_file,
    select_image_files, FilePath, InputError, ScanEntry,
};

fn p(parts: &[&str]) -> FilePath {
    FilePath::new(parts.iter().map(|s| s.to_string()).collect())
}

fn parts(f: &FilePath) -> Vec<String> {
    f.parts.clone()
}

fn strs(parts: &[&str]) -> Vec<String> {
    parts.iter().map(|s| s.to_string()).collect()
}

#[test]
fn image_extensions_accepted() {
    for name in ["a.jpg", "a.jpeg", "a.png", "a.bmp", "a.tiff", "a.tif"] {
        assert!(is_image_file(&p(&["dir", name])), "{}", name);
    }
}

#[test]
fn image_extension_is_case_sensitive() {
    assert!(!is_image_file(&p(&["a.JPG"])));
    assert!(!is_image_file(&p(&["a.Png"])));
}

#[test]
fn non_image_names_rejected() {
    assert!(!is_image_file(&p(&["README"])));
    assert!(!is_image_file(&p(&["a.gif"])));
    assert!(!is_image_file(&p(&["a.png.txt"])));
    assert!(!is_image_file(&p(&[".png"])));
    assert!(!is_image_file(&p(&["a."])));
    assert!(!is_image_file(&p(&[])));
    assert!(!is_image_file(&p(&["pics", ".."])));
    assert!(is_image_file(&p(&["photo.tar.png"])));
}

#[test]
fn stem_and_extension() {
    assert_eq!(p(&["a.tar.gz"]).file_stem(), Some("a.tar".to_string()));
    assert_eq!(p(&["a.tar.gz"]).extension(), Some("gz".to_string()));
    assert_eq!(p(&[".bashrc"]).file_stem(), Some(".bashrc".to_string()));
    assert_eq!(p(&[".bashrc"]).extension(), None);
    assert_eq!(p(&["a."]).file_stem(), Some("a".to_string()));
    assert_eq!(p(&["a."]).extension(), Some("".to_string()));
    assert_eq!(p(&["/"]).file_name(), None);
    assert_eq!(p(&["x", "."]).file_name(), None);
}

#[test]
fn strip_prefix_and_join() {
    let base = p(&["root", "a"]);
    let q = p(&["root", "a", "b", "c.png"]).strip_prefix(&base).unwrap();
    assert_eq!(parts(&q), strs(&["b", "c.png"]));
    assert!(p(&["other", "c.png"]).strip_prefix(&base).is_none());
    assert!(p(&["root"]).strip_prefix(&base).is_none());
    let j = p(&["out"]).join(&p(&["x", "y"]));
    assert_eq!(parts(&j), strs(&["out", "x", "y"]));
    let k = p(&["out"]).join(&p(&["/", "abs"]));
    assert_eq!(parts(&k), strs(&["/", "abs"]));
}

#[test]
fn scan_keeps_image_files_in_order() {
    let entries = vec![
        ScanEntry { path: p(&["d", "b.png"]), is_file: true },
        ScanEntry { path: p(&["d", "notes.txt"]), is_file: true },
        ScanEntry { path: p(&["d", "dir.jpg"]), is_file: false },
        ScanEntry { path: p(&["d", "a.jpg"]), is_file: true },
        ScanEntry { path: p(&["d", "c.PNG"]), is_file: true },
    ];
    let kept = select_image_files(&entries);
    let got: Vec<Vec<String>> = kept.iter().map(parts).collect();
    assert_eq!(got, vec![strs(&["d", "b.png"]), strs(&["d", "a.jpg"])]);
}

#[test]
fn scan_of_empty_directory_is_empty() {
    assert!(select_image_files(&vec![]).is_empty());
}

#[test]
fn recursive_output_keeps_relative_structure() {
    let root = p(&["root"]);
    let out = p(&["out"]);
    let input = p(&["root", "a", "b", "pic.png"]);
    let got = job_output_path(&input, &root, Some(&out)).unwrap();
    assert_eq!(parts(&got), strs(&["out", "a", "b", "pic.webp"]));
}

#[test]
fn output_beside_input_without_output_dir() {
    let got = job_output_path(&p(&["root", "a", "pic.jpeg"]), &p(&["root"]), None).unwrap();
    assert_eq!(parts(&got), strs(&["root", "a", "pic.webp"]));
}

#[test]
fn input_outside_root_kept_whole_under_output() {
    let got = job_output_path(&p(&["elsewhere", "x.bmp"]), &p(&["root"]), Some(&p(&["out"]))).unwrap();
    assert_eq!(parts(&got), strs(&["out", "elsewhere", "x.webp"]));
    let abs = job_output_path(&p(&["/", "tmp", "x.bmp"]), &p(&["root"]), Some(&p(&["out"]))).unwrap();
    assert_eq!(parts(&abs), strs(&["/", "tmp", "x.webp"]));
}

#[test]
fn same_stem_inputs_collide() {
    let root = p(&["r"]);
    let a = job_output_path(&p(&["r", "x.png"]), &root, None).unwrap();
    let b = job_output_path(&p(&["r", "x.jpg"]), &root, None).unwrap();
    assert_eq!(parts(&a), parts(&b));
}

#[test]
fn build_jobs_in_file_order() {
    let files = vec![p(&["r", "b.png"]), p(&["r", "s", "a.jpg"])];
    let jobs = build_jobs(&files, &p(&["r"]), Some(&p(&["o"]))).unwrap();
    assert_eq!(jobs.len(), 2);
    assert_eq!(parts(&jobs[0].input), strs(&["r", "b.png"]));
    assert_eq!(parts(&jobs[0].output), strs(&["o", "b.webp"]));
    assert_eq!(parts(&jobs[1].input), strs(&["r", "s", "a.jpg"]));
    assert_eq!(parts(&jobs[1].output), strs(&["o", "s", "a.webp"]));
}

#[test]
fn build_jobs_without_file_name_fails() {
    let files = vec![p(&["r", "a.png"]), p(&["r"])];
    assert!(build_jobs(&files, &p(&["r"]), Some(&p(&["o"]))).is_none());
}

#[test]
fn single_file_default_output_beside_original() {
    let plan = plan_single_file(&p(&["photo.jpg"]), true, None, false).ok().unwrap();
    assert_eq!(parts(&plan.job.input), strs(&["photo.jpg"]));
    assert_eq!(parts(&plan.job.output), strs(&["photo.webp"]));
    assert!(!plan.delete_original);
}

#[test]
fn single_file_given_output_and_replace() {
    let plan = plan_single_file(&p(&["d", "photo.png"]), true, Some(p(&["x.webp"])), true).ok().unwrap();
    assert_eq!(parts(&plan.job.output), strs(&["x.webp"]));
    assert!(plan.delete_original);
}

#[test]
fn single_file_errors() {
    assert_eq!(plan_single_file(&p(&["photo.jpg"]), false, None, false).err(), Some(InputError::Missing));
    assert_eq!(plan_single_file(&p(&["photo.gif"]), true, None, false).err(), Some(InputError::NotAnImage));
}

#[test]
fn directory_checks() {
    assert_eq!(check_directory(false, false), Err(InputError::Missing));
    assert_eq!(check_directory(true, false), Err(InputError::NotADirectory));
    assert_eq!(check_directory(true, true), Ok(()));
}

#[test]
fn parent_paths() {
    assert_eq!(parts(&p(&["out", "a", "b.webp"]).parent().unwrap()), strs(&["out", "a"]));
    assert_eq!(parts(&p(&["b.webp"]).parent().unwrap()), Vec::<String>::new());
    assert!(p(&["/"]).parent().is_none());
    assert!(p(&[]).parent().is_none());
    assert_eq!(parts(&p(&["/", "x"]).parent().unwrap()), strs(&["/"]));
}
