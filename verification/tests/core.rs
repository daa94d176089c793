use r_tvui::artifact::{Artifact, ArtifactListResult, ArtifactOptions, ArtifactSort, ArtifactType, MAX_ENTRIES};
use r_tvui::errors::{raise_filesystem_error, FileSystemErrors, RTVUIError};
use r_tvui::listing::{collect_artifact_entries, is_hidden};

fn file(name: &str, size: u64) -> Artifact {
    Artifact {
        name: name.to_string(),
        path: format!("/tmp/listing/{name}"),
        artifact_type: ArtifactType::File,
        size,
        modified: None,
    }
}

fn dir(name: &str) -> Artifact {
    Artifact {
        name: name.to_string(),
        path: format!("/tmp/listing/{name}"),
        artifact_type: ArtifactType::Directory,
        size: 4096,
        modified: None,
    }
}

fn options(show_hidden: bool, sort: ArtifactSort) -> ArtifactOptions {
    ArtifactOptions { show_hidden, sort }
}

fn names(artifacts: &[Artifact]) -> Vec<String> {
    artifacts.iter().map(|a| a.name.clone()).collect()
}

/// The entries of a directory holding one visible and one hidden file.
fn simple_context() -> Vec<Result<Artifact, std::io::Error>> {
    vec![Ok(file(".hidden.txt", 6)), Ok(file("test.txt", 4))]
}

/// Directories `beta`, `alpha`; files `a.txt` (100 bytes) and `z.txt` (1 byte).
fn sort_context() -> Vec<Result<Artifact, std::io::Error>> {
    vec![Ok(dir("beta")), Ok(file("z.txt", 1)), Ok(dir("alpha")), Ok(file("a.txt", 100))]
}

fn listed(entries: Vec<Result<Artifact, std::io::Error>>, opts: ArtifactOptions) -> ArtifactListResult {
    match collect_artifact_entries(entries, &opts) {
        Ok(l) => l,
        Err(_) => panic!("listing failed"),
    }
}

fn artifact_of_size(size: u64) -> Artifact {
    Artifact {
        name: "x".to_string(),
        path: "x".to_string(),
        artifact_type: ArtifactType::File,
        size,
        modified: Some((1_700_000_000, 0)),
    }
}

#[test]
fn is_hidden_detects_dotfiles() {
    assert!(is_hidden(".bashrc"));
    assert!(is_hidden(".hidden.txt"));
    assert!(!is_hidden("visible.txt"));
    assert!(!is_hidden("a.b.c"));
    assert!(!is_hidden(""));
}

#[test]
fn format_size_bytes() {
    assert_eq!(artifact_of_size(0).format_size(), "0 B");
    assert_eq!(artifact_of_size(512).format_size(), "512 B");
    assert_eq!(artifact_of_size(1024).format_size(), "1024 B");
}

#[test]
fn format_size_kilobytes() {
    assert!(artifact_of_size(2048).format_size().contains("KB"));
}

#[test]
fn format_size_megabytes() {
    assert!(artifact_of_size(5 * 1024 * 1024).format_size().contains("MB"));
}

#[test]
fn format_size_gigabytes() {
    assert!(artifact_of_size(3 * 1024 * 1024 * 1024).format_size().contains("GB"));
}

#[test]
fn get_artifact_entries_ok() {
    assert!(collect_artifact_entries(simple_context(), &ArtifactOptions::default()).is_ok());
}

#[test]
fn get_artifact_entries_hides_dotfiles_by_default() {
    let listing = listed(simple_context(), ArtifactOptions::default());
    let names = names(&listing.artifacts);
    assert!(names.contains(&"test.txt".to_string()));
    assert!(!names.contains(&".hidden.txt".to_string()));
}

#[test]
fn get_artifact_entries_shows_hidden_when_requested() {
    let listing = listed(simple_context(), options(true, ArtifactSort::Name));
    let names = names(&listing.artifacts);
    assert!(names.contains(&"test.txt".to_string()));
    assert!(names.contains(&".hidden.txt".to_string()));
}

#[test]
fn get_artifact_entries_reports_metadata() {
    let listing = listed(simple_context(), options(true, ArtifactSort::Name));
    let found = listing.artifacts.iter().find(|a| a.name == "test.txt").unwrap();
    assert_eq!(found.artifact_type, ArtifactType::File);
    assert_eq!(found.size, 4);
    assert_eq!(found.path, "/tmp/listing/test.txt");
}

#[test]
fn get_artifact_entries_errors_on_missing_path() {
    let entries = vec![Err(std::io::Error::new(std::io::ErrorKind::NotFound, "missing"))];
    let result = collect_artifact_entries(entries, &ArtifactOptions::default());
    assert!(matches!(result, Err(RTVUIError::FileSystemError(FileSystemErrors::Io(_)))));
}

#[test]
fn get_artifact_entries_empty_directory() {
    let listing = listed(Vec::new(), ArtifactOptions::default());
    assert!(listing.artifacts.is_empty());
    assert!(!listing.partial);
}

#[test]
fn get_artifact_entries_marks_partial_over_limit() {
    let entries: Vec<Result<Artifact, std::io::Error>> =
        (0..(MAX_ENTRIES + 10)).map(|i| Ok(file(&format!("f_{i}.txt"), 1))).collect();
    let listing = listed(entries, options(true, ArtifactSort::Name));
    assert!(listing.partial);
    assert_eq!(listing.artifacts.len(), MAX_ENTRIES);
}

#[test]
fn sort_directories_before_files() {
    let listing = listed(sort_context(), options(false, ArtifactSort::Name));
    let types: Vec<ArtifactType> = listing.artifacts.iter().map(|a| a.artifact_type).collect();
    assert_eq!(types[0], ArtifactType::Directory);
    assert_eq!(types[1], ArtifactType::Directory);
    assert_eq!(types[2], ArtifactType::File);
    assert_eq!(types[3], ArtifactType::File);
}

#[test]
fn sort_by_name_is_alphabetical_within_group() {
    let listing = listed(sort_context(), options(false, ArtifactSort::Name));
    assert_eq!(names(&listing.artifacts), vec!["alpha", "beta", "a.txt", "z.txt"]);
}

#[test]
fn sort_by_size_orders_files_by_bytes() {
    let listing = listed(sort_context(), options(false, ArtifactSort::Size));
    let files: Vec<String> = listing
        .artifacts
        .iter()
        .filter(|a| a.artifact_type == ArtifactType::File)
        .map(|a| a.name.clone())
        .collect();
    assert_eq!(files, vec!["a.txt", "z.txt"]);
}

#[test]
fn sort_by_modified_keeps_dirs_first_and_lists_all() {
    let listing = listed(sort_context(), options(false, ArtifactSort::Modified));
    assert_eq!(listing.artifacts.len(), 4);
    assert_eq!(listing.artifacts[0].artifact_type, ArtifactType::Directory);
    assert_eq!(listing.artifacts[1].artifact_type, ArtifactType::Directory);
}

fn io_error() -> std::io::Error {
    std::io::Error::other("boom")
}

#[test]
fn raise_filesystem_error_maps_variants() {
    let path = "/tmp/x".to_string();
    assert!(matches!(
        raise_filesystem_error("NotFound", path.clone(), io_error()),
        RTVUIError::FileSystemError(FileSystemErrors::NotFound(_))
    ));
    assert!(matches!(
        raise_filesystem_error("PermissionDenied", path.clone(), io_error()),
        RTVUIError::FileSystemError(FileSystemErrors::PermissionDenied(_))
    ));
    assert!(matches!(
        raise_filesystem_error("Io", path.clone(), io_error()),
        RTVUIError::FileSystemError(FileSystemErrors::Io(_))
    ));
    assert!(matches!(
        raise_filesystem_error("InvalidPath", path.clone(), io_error()),
        RTVUIError::FileSystemError(FileSystemErrors::InvalidPath(_))
    ));
    assert!(matches!(
        raise_filesystem_error("???", path, io_error()),
        RTVUIError::FileSystemError(FileSystemErrors::Io(_))
    ));
}

#[test]
fn format_size_uses_one_decimal_like_floats() {
    for size in [1025u64, 1536, 10_000, 999_999, 1_048_575, 1_048_576, 5_000_000, 1_073_741_823, 1_073_741_824, 3_221_225_472, 10_000_000_000_000] {
        let text = artifact_of_size(size).format_size();
        let expected = if size <= 1024 {
            format!("{size} B")
        } else if size < 1024 * 1024 {
            format!("{:.1} KB", size as f64 / 1024.0)
        } else if size < 1024 * 1024 * 1024 {
            format!("{:.1} MB", size as f64 / (1024.0 * 1024.0))
        } else {
            format!("{:.1} GB", size as f64 / (1024.0 * 1024.0 * 1024.0))
        };
        assert_eq!(text, expected, "size {size}");
    }
}

#[test]
fn format_modified_prints_utc_minutes() {
    let mut a = artifact_of_size(1);
    a.modified = Some((0, 0));
    assert_eq!(a.format_modified(), "1970-01-01 00:00");
    a.modified = Some((951_782_400, 5));
    assert_eq!(a.format_modified(), "2000-02-29 00:00");
    a.modified = Some((1_700_000_000, 0));
    assert_eq!(a.format_modified(), "2023-11-14 22:13");
    a.modified = None;
    assert_eq!(a.format_modified(), "-");
    a.modified = Some((-5, 0));
    assert_eq!(a.format_modified(), "-");
}

#[test]
fn error_text_matches_debug_formatting() {
    let errors = vec![
        r_tvui::errors::RTVUIError::SystemError(r_tvui::errors::SystemError::EventKeyError(r_tvui::events::input::KeyEvent::new(r_tvui::events::input::KeyCode::Char('\'')))),
        r_tvui::errors::RTVUIError::SystemError(r_tvui::errors::SystemError::EventKeyError(r_tvui::events::input::KeyEvent::new(r_tvui::events::input::KeyCode::F(12)))),
        r_tvui::errors::RTVUIError::SystemError(r_tvui::errors::SystemError::EventKeyError(r_tvui::events::input::KeyEvent::new(r_tvui::events::input::KeyCode::PageDown))),
        r_tvui::errors::RTVUIError::FileSystemError(r_tvui::errors::FileSystemErrors::NotFound("tab\there".to_string())),
        r_tvui::errors::RTVUIError::FileSystemError(r_tvui::errors::FileSystemErrors::Io(std::io::Error::other("x"))),
    ];
    for e in &errors {
        assert_eq!(r_tvui::errors::error_text(e), format!("{e:?}"));
    }
}

#[test]
fn start_plan_picks_directory_parent_or_working_dir() {
    let plan = r_tvui::cli::start_plan;
    let wd = r_tvui::cli::StartPlan::WorkingDir;
    assert_eq!(plan(None, false, false), wd);
    assert_eq!(plan(Some("/d".to_string()), true, false), r_tvui::cli::StartPlan::Directory("/d".to_string()));
    assert_eq!(plan(Some("/d/f.txt".to_string()), false, true), r_tvui::cli::StartPlan::ParentOf("/d".to_string()));
    assert_eq!(plan(Some("/missing".to_string()), false, false), r_tvui::cli::StartPlan::WorkingDir);
}
