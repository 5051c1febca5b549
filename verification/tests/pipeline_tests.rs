//! The load and save pipelines driven against a real filesystem, the
//! way a host embeds them: each probe outcome is handed to the next
//! stage function.

use std::io::Write;

use md_viewer::commands::check_exists;
use md_viewer::commands::check_is_file;
use md_viewer::commands::check_save_extension;
use md_viewer::commands::finish_load;
use md_viewer::commands::render_markdown;
use md_viewer::commands::save_target;
use md_viewer::commands::split_save_path;
use md_viewer::commands::validate_canonical_for_read;
use md_viewer::commands::FileContent;

const UNSUPPORTED: &str = "Unsupported file type. Allowed extensions: md, markdown, mdx, mdown, txt";

fn probe_canonical(p: &str) -> Result<String, String> {
    match std::path::Path::new(p).canonicalize() {
        Ok(c) => match c.to_str() {
            Some(s) => Ok(s.to_string()),
            None => Err("not valid unicode".to_string()),
        },
        Err(e) => Err(e.to_string()),
    }
}

fn load_with_reader(
    path: &str,
    read: impl FnOnce() -> Result<String, String>,
) -> Result<FileContent, String> {
    let p = std::path::Path::new(path);
    let probe = p.metadata().map(|_| ()).map_err(|e| e.to_string());
    check_exists(path, probe)?;
    check_is_file(path, p.is_file())?;
    let canonical = validate_canonical_for_read(probe_canonical(path))?;
    finish_load(canonical, read())
}

#[test]
fn test_round_trip_save_then_load() {
    let dir = tempfile::tempdir().unwrap();
    let mut file = tempfile::Builder::new()
        .suffix(".md")
        .tempfile_in(dir.path())
        .unwrap();
    let path_string = file.path().to_str().unwrap().to_string();
    let content = "# Title\n\n- [x] done\n- [ ] todo\n\nwith <em>markup</em>\n";

    check_save_extension(&path_string).unwrap();
    let (parent, name) = split_save_path(&path_string).unwrap();
    let target = save_target(probe_canonical(&parent), &name).unwrap();
    assert_eq!(target, probe_canonical(&path_string).unwrap());
    file.as_file_mut().write_all(content.as_bytes()).unwrap();
    file.as_file_mut().flush().unwrap();

    let reader = || match file.reopen() {
        Ok(f) => std::io::read_to_string(f).map_err(|e| e.to_string()),
        Err(e) => Err(e.to_string()),
    };
    let fc = load_with_reader(&path_string, reader).unwrap();
    assert_eq!(fc.content, content);
    assert_eq!(fc.html, render_markdown(content.to_string()));
    assert_eq!(fc.path, target);
}

#[test]
fn test_load_directory_is_not_a_file_and_reads_nothing() {
    let dir = tempfile::tempdir().unwrap();
    let sub = tempfile::Builder::new()
        .suffix(".md")
        .tempdir_in(dir.path())
        .unwrap();
    let path_string = sub.path().to_str().unwrap().to_string();
    let mut read_happened = false;
    let err = load_with_reader(&path_string, || {
        read_happened = true;
        Ok(String::new())
    })
    .unwrap_err();
    assert_eq!(err, format!("Not a file: {}", path_string));
    assert!(!read_happened);
}

#[test]
fn test_load_missing_file_is_not_found() {
    let dir = tempfile::tempdir().unwrap();
    let path_string = format!("{}/absent.md", dir.path().to_str().unwrap());
    let cause = std::path::Path::new(&path_string)
        .metadata()
        .unwrap_err()
        .to_string();
    let err = load_with_reader(&path_string, || Ok(String::new())).unwrap_err();
    assert_eq!(err, format!("File not found: {}: {}", path_string, cause));
    assert!(err.contains("No such file or directory"));
}

#[test]
fn test_existing_file_with_bad_extension_rejected_by_both() {
    let dir = tempfile::tempdir().unwrap();
    let file = tempfile::Builder::new()
        .suffix(".exe")
        .tempfile_in(dir.path())
        .unwrap();
    let path_string = file.path().to_str().unwrap().to_string();
    assert!(std::path::Path::new(&path_string).exists());

    let err = load_with_reader(&path_string, || Ok(String::new())).unwrap_err();
    assert_eq!(err, UNSUPPORTED);
    assert_eq!(check_save_extension(&path_string).unwrap_err(), UNSUPPORTED);
}

#[test]
fn test_save_accepts_trailing_separator_path() {
    let dir = tempfile::tempdir().unwrap();
    let base = dir.path().to_str().unwrap();
    let path_string = format!("{}/note.md/", base);
    check_save_extension(&path_string).unwrap();
    let (parent, name) = split_save_path(&path_string).unwrap();
    assert_eq!(name, "note.md");
    let target = save_target(probe_canonical(&parent), &name).unwrap();
    assert_eq!(target, format!("{}/note.md", probe_canonical(base).unwrap()));
}

#[test]
fn test_traversal_segments_resolved_before_extension_check() {
    let dir = tempfile::tempdir().unwrap();
    let sub = tempfile::Builder::new().tempdir_in(dir.path()).unwrap();
    let mut file = tempfile::Builder::new()
        .suffix(".md")
        .tempfile_in(dir.path())
        .unwrap();
    file.as_file_mut().write_all(b"plain").unwrap();
    let direct = file.path().to_str().unwrap().to_string();
    let name = direct.rsplit('/').next().unwrap();
    let devious = format!("{}/../{}", sub.path().to_str().unwrap(), name);

    let reader = || match file.reopen() {
        Ok(f) => std::io::read_to_string(f).map_err(|e| e.to_string()),
        Err(e) => Err(e.to_string()),
    };
    let fc = load_with_reader(&devious, reader).unwrap();
    assert!(!fc.path.contains(".."));
    assert_eq!(fc.path, probe_canonical(&direct).unwrap());
    assert_eq!(fc.content, "plain");
}
