use md_viewer::commands::check_exists;
use md_viewer::commands::check_is_file;
use md_viewer::commands::check_save_extension;
use md_viewer::commands::finish_load;
use md_viewer::commands::finish_save;
use md_viewer::commands::render_markdown;
use md_viewer::commands::save_target;
use md_viewer::commands::split_save_path;
use md_viewer::commands::validate_canonical_for_read;
use md_viewer::paths::has_allowed_extension;

const UNSUPPORTED: &str = "Unsupported file type. Allowed extensions: md, markdown, mdx, mdown, txt";

#[test]
fn test_allowed_extensions_accepted() {
    assert!(has_allowed_extension("/a/b.md"));
    assert!(has_allowed_extension("/a/b.markdown"));
    assert!(has_allowed_extension("/a/b.mdx"));
    assert!(has_allowed_extension("/a/b.mdown"));
    assert!(has_allowed_extension("/a/b.txt"));
}

#[test]
fn test_extension_check_is_case_insensitive() {
    assert!(has_allowed_extension("/a/b.MD"));
    assert!(has_allowed_extension("/a/b.Markdown"));
    assert!(has_allowed_extension("NOTES.TXT"));
}

#[test]
fn test_disallowed_or_missing_extensions_rejected() {
    assert!(!has_allowed_extension("/a/b.exe"));
    assert!(!has_allowed_extension("/a/b.html"));
    assert!(!has_allowed_extension("/a/noext"));
    assert!(!has_allowed_extension("/a/.md"));
    assert!(!has_allowed_extension("/a/trailingdot."));
    assert!(!has_allowed_extension("/dir.md/file"));
    assert!(!has_allowed_extension("/a/x.md.exe"));
    assert!(!has_allowed_extension(""));
    assert!(has_allowed_extension("/a/archive.tar.md"));
}

#[test]
fn test_save_rejects_bad_extension_without_any_probe() {
    let r = check_save_extension("/definitely/not/existing/file.exe");
    assert_eq!(r.unwrap_err(), UNSUPPORTED);
}

#[test]
fn test_load_rejects_bad_extension_on_canonical_form() {
    let r = validate_canonical_for_read(Ok("/any/where/file.pdf".to_string()));
    assert_eq!(r.unwrap_err(), UNSUPPORTED);
}

#[test]
fn test_validate_canonical_passes_allowed_path_through() {
    let r = validate_canonical_for_read(Ok("/notes/todo.md".to_string()));
    assert_eq!(r.unwrap(), "/notes/todo.md");
}

#[test]
fn test_not_found_message_carries_cause() {
    let r = check_exists(
        "/gone/away.md",
        Err("No such file or directory (os error 2)".to_string()),
    );
    assert_eq!(
        r.unwrap_err(),
        "File not found: /gone/away.md: No such file or directory (os error 2)"
    );
    assert!(check_exists("/gone/away.md", Ok(())).is_ok());
}

#[test]
fn test_not_a_file_message() {
    let r = check_is_file("/some/dir", false);
    assert_eq!(r.unwrap_err(), "Not a file: /some/dir");
    assert!(check_is_file("/some/file.md", true).is_ok());
}

#[test]
fn test_invalid_path_carries_cause() {
    let r = validate_canonical_for_read(Err("No such file or directory".to_string()));
    assert_eq!(r.unwrap_err(), "Invalid file path: No such file or directory");
}

#[test]
fn test_split_needs_parent() {
    let r = split_save_path("note.md");
    assert_eq!(r.unwrap_err(), "Invalid file path: no parent directory");
}

#[test]
fn test_split_needs_filename() {
    assert_eq!(
        split_save_path("/tmp/..").unwrap_err(),
        "Invalid file path: no filename"
    );
    assert_eq!(
        split_save_path("/tmp/.").unwrap_err(),
        "Invalid file path: no filename"
    );
}

#[test]
fn test_root_has_no_parent() {
    assert_eq!(
        split_save_path("/").unwrap_err(),
        "Invalid file path: no parent directory"
    );
}

#[test]
fn test_trailing_separators_disregarded() {
    assert!(has_allowed_extension("/a/b.md/"));
    assert!(has_allowed_extension("/a/b.MD///"));
    assert!(!has_allowed_extension("/a/sub/"));
    let (parent, name) = split_save_path("/tmp/sub/note.md/").unwrap();
    assert_eq!(parent, "/tmp/sub");
    assert_eq!(name, "note.md");
}

#[test]
fn test_split_keeps_parent_and_name() {
    let (parent, name) = split_save_path("/tmp/sub/note.md").unwrap();
    assert_eq!(parent, "/tmp/sub");
    assert_eq!(name, "note.md");
}

#[test]
fn test_split_at_root() {
    let (parent, name) = split_save_path("/note.md").unwrap();
    assert_eq!(parent, "/");
    assert_eq!(name, "note.md");
}

#[test]
fn test_save_target_joins_canonical_parent_and_name() {
    assert_eq!(
        save_target(Ok("/a/b".to_string()), "c.md").unwrap(),
        "/a/b/c.md"
    );
    assert_eq!(save_target(Ok("/".to_string()), "c.md").unwrap(), "/c.md");
}

#[test]
fn test_save_target_reports_bad_directory() {
    let r = save_target(Err("Permission denied".to_string()), "c.md");
    assert_eq!(r.unwrap_err(), "Invalid directory path: Permission denied");
}

#[test]
fn test_finish_save_messages() {
    assert!(finish_save(Ok(())).is_ok());
    assert_eq!(
        finish_save(Err("disk full".to_string())).unwrap_err(),
        "Failed to save file: disk full"
    );
}

#[test]
fn test_finish_load_read_failure() {
    let r = finish_load("/n/a.md".to_string(), Err("interrupted".to_string()));
    assert_eq!(r.unwrap_err(), "Failed to read file: interrupted");
}

#[test]
fn test_finish_load_builds_document() {
    let content = "# Hi";
    let fc = finish_load("/n/a.md".to_string(), Ok(content.to_string())).unwrap();
    assert_eq!(fc.path, "/n/a.md");
    assert_eq!(fc.filename, "a.md");
    assert_eq!(fc.content, content);
    assert_eq!(fc.html, render_markdown(content.to_string()));
}

#[test]
fn test_finish_load_filename_ignores_trailing_separator() {
    let fc = finish_load("/n/sub/".to_string(), Ok("x".to_string())).unwrap();
    assert_eq!(fc.filename, "sub");
}

#[test]
fn test_finish_load_filename_fallback() {
    let fc = finish_load("/".to_string(), Ok("x".to_string())).unwrap();
    assert_eq!(fc.filename, "Unknown");
}
