use prepend::error::quote;
use prepend::input::{is_blank, normalize_text};
use prepend::paths::{extension, temp_path_for};
use prepend::validate::is_allowed_extension;
use prepend::{
    parse_arguments, text_from_argument, text_from_input, validate_file, Action, Config, Event,
    FileStatus, Invocation, Phase, PrependEngine, PrependError, BUFFER_SIZE, PREVIEW_SIZE,
};

/// A file held in memory, with its temporary sibling.
struct Disk {
    target: Vec<u8>,
    temp: Option<Vec<u8>>,
    cursor: usize,
}

/// Runs the engine for `config` on `disk`; the action at position `fail_at`
/// of the run, if any, fails.
fn drive(config: &Config, disk: &mut Disk, fail_at: Option<usize>) -> (Result<(), PrependError>, Vec<Action>) {
    let mut engine = PrependEngine::new(config);
    let mut seen = Vec::new();
    let mut action = engine.action();
    let mut n: usize = 0;
    loop {
        if let Action::Finish(result) = action {
            return (result, seen);
        }
        let event = if fail_at == Some(n) {
            Event::Failed(format!("failure {}", n))
        } else {
            match &action {
                Action::OpenSource(_) => {
                    disk.cursor = 0;
                    Event::Done
                }
                Action::CreateTemp(_) => {
                    disk.temp = Some(Vec::new());
                    Event::Done
                }
                Action::Write(bytes) => {
                    disk.temp.as_mut().unwrap().extend_from_slice(bytes);
                    Event::Done
                }
                Action::Read(limit) => {
                    let end = std::cmp::min(disk.cursor + limit, disk.target.len());
                    let chunk = disk.target[disk.cursor..end].to_vec();
                    disk.cursor = end;
                    Event::Data(chunk)
                }
                Action::Flush => Event::Done,
                Action::Rename { .. } => {
                    disk.target = disk.temp.take().unwrap();
                    Event::Done
                }
                Action::RemoveTemp(_) => {
                    disk.temp = None;
                    Event::Done
                }
                Action::Preview { .. } => Event::Done,
                Action::Finish(_) => unreachable!(),
            }
        };
        seen.push(action);
        n += 1;
        action = engine.step(event);
    }
}

fn request(filename: &str, text: &str, dry_run: bool) -> Config {
    Config { filename: filename.to_string(), prepend_text: text.to_string(), dry_run }
}

fn disk(bytes: &[u8]) -> Disk {
    Disk { target: bytes.to_vec(), temp: None, cursor: 0 }
}

#[test]
fn engine_asks_for_each_operation_in_order() {
    let mut d = disk(b"body\n");
    let (result, seen) = drive(&request("dir/notes.txt", "Head", false), &mut d, None);
    assert!(result.is_ok());
    assert!(matches!(&seen[0], Action::OpenSource(p) if p == "dir/notes.txt"));
    assert!(matches!(&seen[1], Action::CreateTemp(p) if p == "dir/notes.tmp_prepend"));
    assert!(matches!(&seen[2], Action::Write(b) if b == b"Head\n"));
    assert!(matches!(&seen[3], Action::Read(n) if *n == BUFFER_SIZE));
    assert!(matches!(&seen[4], Action::Write(b) if b == b"body\n"));
    assert!(matches!(&seen[5], Action::Read(_)));
    assert!(matches!(&seen[6], Action::Flush));
    assert!(
        matches!(&seen[7], Action::Rename { from, to } if from == "dir/notes.tmp_prepend" && to == "dir/notes.txt")
    );
    assert_eq!(seen.len(), 8);
    assert_eq!(d.target, b"Head\nbody\n");
    assert!(d.temp.is_none());
}

#[test]
fn engine_copies_in_buffer_sized_pieces() {
    let original: Vec<u8> = (0..(2 * BUFFER_SIZE + 17)).map(|i| (i % 251) as u8).collect();
    let mut d = disk(&original);
    let (result, seen) = drive(&request("big.bin", "H\n", false), &mut d, None);
    assert!(result.is_ok());
    let writes = seen.iter().filter(|a| matches!(a, Action::Write(_))).count();
    assert_eq!(writes, 4);
    let mut expected = b"H\n".to_vec();
    expected.extend_from_slice(&original);
    assert_eq!(d.target, expected);
}

#[test]
fn engine_failure_at_any_step_leaves_target() {
    let original = b"keep me\x00\xff".to_vec();
    for fail_at in 0..8 {
        let mut d = disk(&original);
        let (result, _) = drive(&request("f.txt", "Header\n", false), &mut d, Some(fail_at));
        assert_eq!(result, Err(PrependError::Io(format!("failure {}", fail_at))));
        assert_eq!(d.target, original, "failed at {}", fail_at);
    }
}

#[test]
fn engine_removes_temp_after_failed_rename() {
    let mut d = disk(b"data");
    let (result, seen) = drive(&request("f.txt", "Header\n", false), &mut d, Some(7));
    assert_eq!(result, Err(PrependError::Io("failure 7".to_string())));
    assert!(matches!(seen.last().unwrap(), Action::RemoveTemp(p) if p == "f.tmp_prepend"));
    assert!(d.temp.is_none());
    assert_eq!(d.target, b"data");
}

#[test]
fn engine_stays_finished() {
    let mut engine = PrependEngine::new(&request("f.txt", "x", false));
    let action = engine.step(Event::Failed("gone".to_string()));
    assert!(matches!(action, Action::Finish(Err(PrependError::Io(ref m))) if m == "gone"));
    assert_eq!(engine.phase(), Phase::Finished);
    let again = engine.step(Event::Done);
    assert!(matches!(again, Action::Finish(Err(PrependError::Io(ref m))) if m == "gone"));
}

#[test]
fn dry_run_never_writes() {
    let mut d = disk(b"untouched\n");
    let (result, seen) = drive(&request("f.txt", "Header", true), &mut d, None);
    assert!(result.is_ok());
    assert_eq!(seen.len(), 1);
    assert!(matches!(&seen[0], Action::Preview { path, limit } if path == "f.txt" && *limit == PREVIEW_SIZE));
    assert_eq!(d.target, b"untouched\n");
    assert!(d.temp.is_none());
}

#[test]
fn scenario_binary_target_keeps_its_bytes() {
    let original: Vec<u8> = vec![0, 1, 2, 255, 254, 253, 128, 127];
    let mut d = disk(&original);
    let (result, _) = drive(&request("data.bin", "Text Header\n", false), &mut d, None);
    assert!(result.is_ok());
    assert_eq!(d.target.len(), 20);
    assert_eq!(&d.target[..12], b"Text Header\n");
    assert_eq!(&d.target[12..], &original[..]);
}

#[test]
fn engine_normalizes_its_header() {
    let mut d = disk(b"Original line 1\nOriginal line 2\n");
    let (result, _) = drive(&request("f.txt", "New Header", false), &mut d, None);
    assert!(result.is_ok());
    assert_eq!(d.target, b"New Header\nOriginal line 1\nOriginal line 2\n");
    assert_eq!(PrependEngine::new(&request("a.log", "x", false)).temp_path(), "a.tmp_prepend");
}

#[test]
fn validation_is_repeatable() {
    let ok = FileStatus { exists: true, is_file: true, writable: true };
    for _ in 0..3 {
        assert_eq!(validate_file("notes.md", &ok), Ok(()));
    }
    let unwritable = FileStatus { exists: true, is_file: true, writable: false };
    assert_eq!(
        validate_file("notes.md", &unwritable),
        Err(PrependError::NotWritable("notes.md".to_string()))
    );
    let dir = FileStatus { exists: true, is_file: false, writable: false };
    assert_eq!(validate_file("d", &dir), Err(PrependError::NotAFile("d".to_string())));
}

#[test]
fn messages_quote_the_path() {
    assert_eq!(quote("a b"), "\"a b\"");
    assert_eq!(
        PrependError::FileNotFound("/x/y.txt".to_string()).message(),
        "File \"/x/y.txt\" does not exist."
    );
    assert_eq!(PrependError::NotAFile("/x".to_string()).message(), "\"/x\" is not a regular file.");
    assert_eq!(
        PrependError::NotWritable("r.txt".to_string()).message(),
        "File \"r.txt\" is not writable."
    );
    assert_eq!(PrependError::EmptyInput.message(), "Input text is empty.");
    assert_eq!(PrependError::from_io("disk full".to_string()).message(), "disk full");
}

#[test]
fn temp_paths() {
    assert_eq!(temp_path_for("dir/file.txt"), "dir/file.tmp_prepend");
    assert_eq!(temp_path_for("file"), "file.tmp_prepend");
    assert_eq!(temp_path_for("dir/.bashrc"), "dir/.bashrc.tmp_prepend");
    assert_eq!(temp_path_for("a.b/c"), "a.b/c.tmp_prepend");
    assert_eq!(temp_path_for("x.tar.gz"), "x.tar.tmp_prepend");
    assert_eq!(temp_path_for("x.tmp_prepend"), "x.tmp_prepend.tmp_prepend");
}

#[test]
fn extensions() {
    assert_eq!(extension("a/b.TXT"), Some("TXT"));
    assert_eq!(extension("a.d/b"), None);
    assert_eq!(extension(".profile"), None);
    assert_eq!(extension("name."), Some(""));
    assert!(is_allowed_extension("TXT"));
    assert!(is_allowed_extension("Rs"));
    assert!(is_allowed_extension("c"));
    assert!(!is_allowed_extension("xyz"));
    assert!(!is_allowed_extension("txt "));
    assert!(!is_allowed_extension(""));
    assert_eq!(
        prepend::extension_warning("photo.JPG"),
        Some("Uncommon extension '.JPG'. Proceeding...".to_string())
    );
    assert_eq!(prepend::extension_warning("README.Md"), None);
}

#[test]
fn text_normalization() {
    assert_eq!(normalize_text("abc"), "abc\n");
    assert_eq!(normalize_text("abc\n"), "abc\n");
    assert_eq!(normalize_text(""), "\n");
    assert_eq!(text_from_argument("line\n\n"), "line\n\n");
    assert!(is_blank(""));
    assert!(is_blank(" \t\r\n\u{3000}\u{a0}"));
    assert!(!is_blank("  x "));
    assert_eq!(text_from_input(" \n\t "), Err(PrependError::EmptyInput));
    assert_eq!(text_from_input("  hi"), Ok("  hi\n".to_string()));
}

#[test]
fn argument_forms() {
    let args = |v: &[&str]| v.iter().map(|s| s.to_string()).collect::<Vec<String>>();
    assert!(matches!(parse_arguments(&args(&[])), Invocation::Help));
    match parse_arguments(&args(&["p", "f.txt", "--dry-run", "text", "extra"])) {
        Invocation::Prepend { filename, text, dry_run } => {
            assert_eq!(filename, "f.txt");
            assert_eq!(text, Some("text".to_string()));
            assert!(dry_run);
        }
        Invocation::Help => panic!("expected a prepend request"),
    }
    match parse_arguments(&args(&["p", "f.txt"])) {
        Invocation::Prepend { filename, text, dry_run } => {
            assert_eq!(filename, "f.txt");
            assert_eq!(text, None);
            assert!(!dry_run);
        }
        Invocation::Help => panic!("expected a prepend request"),
    }
    assert!(matches!(parse_arguments(&args(&["p", "-h", "f.txt"])), Invocation::Help));
}
