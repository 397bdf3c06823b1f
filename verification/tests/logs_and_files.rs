//! Log files and how files are replaced.

use std::collections::BTreeMap;

use sanctuary_player::logging;
use sanctuary_player::logging::{
    launch_base, launch_base_of, part_name, record_line, sorted_names, Level, LoggingError,
    Pruning, RotatingWriter, LOG_PREFIX,
};
use sanctuary_player::persistence::{temporary_name, AtomicWrite, WriteStep};

/// Log files in memory.
struct Logs {
    writer: RotatingWriter,
    files: BTreeMap<String, String>,
}

impl Logs {
    fn new(max_bytes: u64, max_files: usize) -> Self {
        let writer =
            RotatingWriter::new("sanctuary-player-test".to_string(), max_bytes, max_files);
        let mut files = BTreeMap::new();
        files.insert(writer.current_name.clone(), String::new());
        Logs { writer, files }
    }

    fn prune(&mut self) {
        let names: Vec<String> = self.files.keys().cloned().collect();
        let mut pruning =
            Pruning::new(names, &self.writer.current_name, self.writer.max_files);
        while let Some(name) = pruning.next_removal() {
            self.files.remove(&name);
            pruning.removed();
        }
    }

    fn write_line(&mut self, line: &str) {
        let incoming = line.len() as u64;
        if self.writer.must_rotate(incoming) {
            let name = self.writer.rotate();
            self.files.insert(name.clone(), String::new());
            self.writer.rotated(name);
            self.prune();
        }
        self.files.get_mut(&self.writer.current_name).unwrap().push_str(line);
        self.writer.written(incoming);
    }
}

#[test]
fn rotates_before_a_segment_exceeds_the_limit() {
    let mut logs = Logs::new(10, 20);
    logs.write_line("12345\n");
    logs.write_line("67890\n");
    let contents: Vec<&str> = logs.files.values().map(String::as_str).collect();
    assert_eq!(contents.len(), 2);
    assert_eq!(contents[0], "12345\n");
    assert_eq!(contents[1], "67890\n");
}

#[test]
fn retains_only_the_newest_log_segments() {
    let mut logs = Logs::new(5, 3);
    for index in 0..6 {
        logs.write_line(&format!("{index:04}\n"));
    }
    let names: Vec<&str> = logs.files.keys().map(String::as_str).collect();
    assert_eq!(names.len(), 3);
    assert!(names[0].contains("part00000004"));
    assert!(names[2].contains("part00000006"));
}

#[test]
fn other_files_are_left_alone() {
    let names = vec![
        "notes.txt".to_string(),
        format!("{LOG_PREFIX}b.log"),
        format!("{LOG_PREFIX}a.log"),
        format!("{LOG_PREFIX}c.log"),
    ];
    let mut pruning = Pruning::new(names, &format!("{LOG_PREFIX}c.log"), 2);
    assert_eq!(pruning.next_removal(), Some(format!("{LOG_PREFIX}a.log")));
    pruning.removed();
    assert_eq!(pruning.next_removal(), None);
}

#[test]
fn names_are_put_in_order() {
    let names = vec!["b".to_string(), "".to_string(), "ab".to_string(), "a".to_string()];
    assert_eq!(sorted_names(names), vec!["", "a", "ab", "b"]);
}

#[test]
fn lines_carry_the_time_and_the_place() {
    assert_eq!(
        logging::line("now", Level::Warn, None, "player", "late frame"),
        "[now] WARN  [unnamed] player: late frame\n"
    );
    assert_eq!(
        record_line(947_638_923_004, Level::Info, Some("main"), "player", "started"),
        Some("[2000-01-12T01:02:03.004Z] INFO  [main] player: started\n".to_string())
    );
    assert_eq!(record_line(0, Level::Debug, None, "player", "detail"), None);
    assert_eq!(record_line(i64::MAX, Level::Error, None, "player", "never"), None);
}

#[test]
fn files_of_a_launch_are_named_after_it() {
    assert_eq!(
        launch_base(947_638_923_004, 77),
        Some("sanctuary-player-20000112-010203.004Z-p77".to_string())
    );
    assert_eq!(launch_base_of("stamp", 1), "sanctuary-player-stamp-p1");
    assert_eq!(part_name("base", 12), "base-part00000012.log");
    assert_eq!(launch_base(i64::MIN, 77), None);
}

#[test]
fn logging_errors_say_what_is_wrong() {
    assert!(LoggingError::Io("disk full".to_string()).message().contains("disk full"));
    assert!(!LoggingError::GlobalLoggerAlreadySet.message().is_empty());
}

/// Files in memory. `fail` is the step that does not come off.
fn write_atomic(
    files: &mut BTreeMap<String, Vec<u8>>,
    path: &str,
    contents: &[u8],
    fail: Option<&str>,
) -> Result<(), String> {
    let temporary = temporary_name(Some(path), 9);
    let mut write = AtomicWrite::begin(path, Some("dir".to_string()), temporary)?;
    loop {
        let (name, done): (&str, bool) = match &write.step {
            WriteStep::CreateDirectory => ("directory", true),
            WriteStep::CreateTemporary => {
                files.insert(write.temporary.clone(), Vec::new());
                ("create", true)
            }
            WriteStep::Write => {
                let half = if fail == Some("write") { contents.len() / 2 } else { contents.len() };
                files.insert(write.temporary.clone(), contents[..half].to_vec());
                ("write", true)
            }
            WriteStep::Sync => ("sync", true),
            WriteStep::Replace => {
                if fail != Some("replace") {
                    let contents = files.remove(&write.temporary).unwrap();
                    files.insert(write.path.clone(), contents);
                }
                ("replace", true)
            }
            WriteStep::SyncDirectory => ("directory sync", true),
            WriteStep::RemoveTemporary(_) => {
                files.remove(&write.temporary);
                ("remove", true)
            }
            WriteStep::Done => return Ok(()),
            WriteStep::Failed(error) => return Err(error.clone()),
        };
        assert!(done);
        let error = if fail == Some(name) { Some("no space") } else { None };
        write.step_done(error);
    }
}

#[test]
fn atomic_write_creates_and_replaces_file() {
    let mut files = BTreeMap::new();
    write_atomic(&mut files, "state.json", b"first\n", None).unwrap();
    assert_eq!(files["state.json"], b"first\n");

    write_atomic(&mut files, "state.json", b"second\n", None).unwrap();
    assert_eq!(files["state.json"], b"second\n");
    assert!(!files.contains_key(&temporary_name(Some("state.json"), 9)));
}

#[test]
fn failed_write_leaves_the_file_as_it_was() {
    let mut files = BTreeMap::new();
    write_atomic(&mut files, "state.json", b"first\n", None).unwrap();
    for step in ["create", "write", "sync", "replace"] {
        let error = write_atomic(&mut files, "state.json", b"second\n", Some(step)).unwrap_err();
        assert!(error.contains("no space"));
        assert_eq!(files["state.json"], b"first\n");
        assert_eq!(files.len(), 1);
    }
    assert!(write_atomic(&mut files, "state.json", b"second\n", Some("directory")).is_err());
    assert_eq!(files["state.json"], b"first\n");
}

#[test]
fn temporary_files_are_named_after_their_process() {
    assert_eq!(temporary_name(Some("state.json"), 42), ".state.json.tmp-42");
    assert_eq!(temporary_name(None, 42), ".state.tmp-42");
    assert!(AtomicWrite::begin("state.json", None, "x".to_string()).is_err());
}
