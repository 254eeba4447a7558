//! Single steps of a run, reply by reply.

use dir_update::{DirUpdate, Entry, Notice, Reply, Request, Session, UpdateError, WalkError};
use std::io;
use std::path::PathBuf;

fn file(path: &str, short: &str) -> Entry {
    Entry { path: PathBuf::from(path), short_path: PathBuf::from(short), is_dir: false }
}

fn failure(text: &str) -> io::Error {
    io::Error::new(io::ErrorKind::Other, text.to_string())
}

/// A run that has found both roots and waits for the first entry.
fn walking() -> Session {
    let session = Session::begin(PathBuf::from("from"), PathBuf::from("to"));
    let (session, notice) = session.step(Reply::IsDir(true));
    assert!(notice.is_none());
    let (session, notice) = session.step(Reply::IsDir(true));
    assert!(notice.is_none());
    session
}

/// A run that waits for the counterpart of `to/sub/a.txt` to be opened.
fn opening() -> Session {
    let (session, notice) = walking().step(Reply::Walked(Some(Ok(file("to/sub/a.txt", "sub/a.txt")))));
    assert!(notice.is_none());
    session
}

fn sizing_source() -> Session {
    let (session, notice) = opening().step(Reply::Opened(true));
    assert!(notice.is_none());
    session
}

fn sizing_dest() -> Session {
    let (session, notice) = sizing_source().step(Reply::Size(Ok(7)));
    assert!(notice.is_none());
    session
}

fn creating() -> Session {
    let (session, notice) = sizing_dest().step(Reply::Size(Ok(4)));
    assert!(notice.is_none());
    session
}

fn copying() -> Session {
    let (session, notice) = creating().step(Reply::Created(Ok(())));
    assert!(notice.is_none());
    session
}

#[test]
fn a_run_keeps_its_roots() {
    let session = copying();
    assert_eq!(session.from(), &PathBuf::from("from"));
    assert_eq!(session.to(), &PathBuf::from("to"));
}

#[test]
fn a_new_run_asks_about_the_source_root() {
    let session = Session::begin(PathBuf::from("from"), PathBuf::from("to"));
    assert!(matches!(session.request(), Request::IsDir(path) if path == &PathBuf::from("from")));
    assert_eq!(session.updated(), 0);
    assert!(session.result().is_none());
}

#[test]
fn after_the_source_root_the_destination_root_is_asked_about() {
    let session = Session::begin(PathBuf::from("from"), PathBuf::from("to"));
    let (session, _) = session.step(Reply::IsDir(true));
    assert!(matches!(session.request(), Request::IsDir(path) if path == &PathBuf::from("to")));
}

#[test]
fn invalid_source_root_ends_the_run() {
    let session = Session::begin(PathBuf::from("from"), PathBuf::from("to"));
    let (session, notice) = session.step(Reply::IsDir(false));
    assert!(notice.is_none());
    assert!(matches!(session.request(), Request::Finish));
    assert!(matches!(session.result(), Some(Err(UpdateError::InvalidFrom))));
}

#[test]
fn invalid_destination_root_ends_the_run() {
    let session = Session::begin(PathBuf::from("from"), PathBuf::from("to"));
    let (session, _) = session.step(Reply::IsDir(true));
    let (session, notice) = session.step(Reply::IsDir(false));
    assert!(notice.is_none());
    assert!(matches!(session.request(), Request::Finish));
    assert!(matches!(session.result(), Some(Err(UpdateError::InvalidTo))));
}

#[test]
fn a_failed_run_takes_nothing_in() {
    let session = Session::begin(PathBuf::from("from"), PathBuf::from("to"));
    let (session, _) = session.step(Reply::IsDir(false));
    let (session, notice) = session.step(Reply::IsDir(true));
    assert!(notice.is_none());
    let (session, notice) = session.step(Reply::Walked(Some(Ok(file("to/a", "a")))));
    assert!(notice.is_none());
    let (session, notice) = session.step(Reply::Copied(Ok(3)));
    assert!(notice.is_none());
    assert_eq!(session.updated(), 0);
    assert!(matches!(session.result(), Some(Err(UpdateError::InvalidFrom))));
}

#[test]
fn valid_roots_start_the_walk_below_the_destination() {
    let session = walking();
    assert!(matches!(session.request(), Request::NextEntry(root) if root == &PathBuf::from("to")));
    assert!(session.result().is_none());
}

#[test]
fn end_of_walk_ends_the_run_with_its_count() {
    let (session, notice) = walking().step(Reply::Walked(None));
    assert!(notice.is_none());
    assert!(matches!(session.request(), Request::Finish));
    assert!(matches!(session.result(), Some(Ok(0))));
}

#[test]
fn a_file_asks_for_its_counterpart_below_the_source_root() {
    let session = opening();
    assert!(matches!(session.request(), Request::Open(path) if path == &PathBuf::from("from/sub/a.txt")));
}

#[test]
fn a_directory_is_not_worked_on() {
    let mut entry = file("to/sub", "sub");
    entry.is_dir = true;
    let (session, notice) = walking().step(Reply::Walked(Some(Ok(entry))));
    assert!(notice.is_none());
    assert!(matches!(session.request(), Request::NextEntry(_)));
}

#[test]
fn a_hidden_file_is_not_worked_on() {
    let (session, notice) = walking().step(Reply::Walked(Some(Ok(file("to/.env", ".env")))));
    assert!(notice.is_none());
    assert!(matches!(session.request(), Request::NextEntry(_)));
    assert_eq!(session.updated(), 0);
}

#[test]
fn a_file_below_a_hidden_directory_is_not_worked_on() {
    let (session, notice) = walking().step(Reply::Walked(Some(Ok(file("to/.git/config", ".git/config")))));
    assert!(notice.is_none());
    assert!(matches!(session.request(), Request::NextEntry(_)));
    let (session, notice) = session.step(Reply::Walked(Some(Ok(file("to/sub/.cache/x/y.txt", "sub/.cache/x/y.txt")))));
    assert!(notice.is_none());
    assert!(matches!(session.request(), Request::NextEntry(_)));
    assert_eq!(session.updated(), 0);
}

#[test]
fn a_file_below_a_root_with_a_leading_dot_is_worked_on() {
    let session = Session::begin(PathBuf::from("from"), PathBuf::from(".cfg"));
    let (session, _) = session.step(Reply::IsDir(true));
    let (session, _) = session.step(Reply::IsDir(true));
    let entry = Entry::new(&PathBuf::from(".cfg"), PathBuf::from(".cfg/a.txt"), false).expect("below the root");
    let (session, notice) = session.step(Reply::Walked(Some(Ok(entry))));
    assert!(notice.is_none());
    assert!(matches!(session.request(), Request::Open(path) if path == &PathBuf::from("from/a.txt")));
}

#[test]
fn a_failed_walk_is_reported_and_the_walk_goes_on() {
    let error = WalkError { path: Some(PathBuf::from("to/locked")), io_error: Some(failure("denied")) };
    let (session, notice) = walking().step(Reply::Walked(Some(Err(error))));
    match notice {
        Some(Notice::WalkError(error)) => assert_eq!(error.path, Some(PathBuf::from("to/locked"))),
        other => panic!("a walk error is reported, not {:?}", other),
    }
    assert!(matches!(session.request(), Request::NextEntry(_)));
    assert!(session.result().is_none());
}

#[test]
fn unopenable_counterpart_is_passed_over() {
    let (session, notice) = opening().step(Reply::Opened(false));
    assert!(notice.is_none());
    assert!(matches!(session.request(), Request::NextEntry(_)));
    assert_eq!(session.updated(), 0);
}

#[test]
fn opened_counterpart_is_sized_first() {
    assert!(matches!(sizing_source().request(), Request::SourceSize));
}

#[test]
fn unreadable_source_size_is_reported_for_the_source_path() {
    let (session, notice) = sizing_source().step(Reply::Size(Err(failure("no size"))));
    match notice {
        Some(Notice::IoError(path, error)) => {
            assert_eq!(path, PathBuf::from("from/sub/a.txt"));
            assert_eq!(error.to_string(), "no size");
        }
        other => panic!("an I/O error is reported, not {:?}", other),
    }
    assert!(matches!(session.request(), Request::NextEntry(_)));
    assert_eq!(session.updated(), 0);
}

#[test]
fn destination_is_sized_after_the_source() {
    assert!(matches!(sizing_dest().request(), Request::DestSize(path) if path == &PathBuf::from("to/sub/a.txt")));
}

#[test]
fn unreadable_destination_size_is_reported_for_the_destination_path() {
    let (session, notice) = sizing_dest().step(Reply::Size(Err(failure("no size"))));
    match notice {
        Some(Notice::IoError(path, error)) => {
            assert_eq!(path, PathBuf::from("to/sub/a.txt"));
            assert_eq!(error.to_string(), "no size");
        }
        other => panic!("an I/O error is reported, not {:?}", other),
    }
    assert!(matches!(session.request(), Request::NextEntry(_)));
}

#[test]
fn equal_sizes_skip_the_file() {
    let (session, notice) = sizing_dest().step(Reply::Size(Ok(7)));
    assert!(matches!(notice, Some(Notice::Skipped(path)) if path == PathBuf::from("to/sub/a.txt")));
    assert!(matches!(session.request(), Request::NextEntry(_)));
    assert_eq!(session.updated(), 0);
}

#[test]
fn empty_files_of_equal_size_are_skipped() {
    let (session, _) = sizing_source().step(Reply::Size(Ok(0)));
    let (session, notice) = session.step(Reply::Size(Ok(0)));
    assert!(matches!(notice, Some(Notice::Skipped(_))));
    assert_eq!(session.updated(), 0);
}

#[test]
fn smaller_source_also_overwrites() {
    let (session, _) = sizing_source().step(Reply::Size(Ok(1)));
    let (session, notice) = session.step(Reply::Size(Ok(u64::MAX)));
    assert!(notice.is_none());
    assert!(matches!(session.request(), Request::Create(_)));
}

#[test]
fn other_sizes_ask_to_create_the_destination() {
    assert!(matches!(creating().request(), Request::Create(path) if path == &PathBuf::from("to/sub/a.txt")));
}

#[test]
fn failed_creation_is_reported_for_the_destination_path() {
    let (session, notice) = creating().step(Reply::Created(Err(failure("read only"))));
    match notice {
        Some(Notice::IoError(path, error)) => {
            assert_eq!(path, PathBuf::from("to/sub/a.txt"));
            assert_eq!(error.to_string(), "read only");
        }
        other => panic!("an I/O error is reported, not {:?}", other),
    }
    assert!(matches!(session.request(), Request::NextEntry(_)));
    assert_eq!(session.updated(), 0);
}

#[test]
fn created_destination_is_copied_into() {
    assert!(matches!(copying().request(), Request::Copy));
}

#[test]
fn finished_copy_counts_and_tells_of_the_update() {
    let (session, notice) = copying().step(Reply::Copied(Ok(7)));
    assert!(matches!(notice, Some(Notice::Updated(path)) if path == PathBuf::from("to/sub/a.txt")));
    assert!(matches!(session.request(), Request::NextEntry(_)));
    assert_eq!(session.updated(), 1);
    let (session, _) = session.step(Reply::Walked(None));
    assert!(matches!(session.result(), Some(Ok(1))));
}

#[test]
fn failed_copy_is_reported_and_not_counted() {
    let (session, notice) = copying().step(Reply::Copied(Err(failure("disk full"))));
    match notice {
        Some(Notice::IoError(path, error)) => {
            assert_eq!(path, PathBuf::from("to/sub/a.txt"));
            assert_eq!(error.to_string(), "disk full");
        }
        other => panic!("an I/O error is reported, not {:?}", other),
    }
    assert!(matches!(session.request(), Request::NextEntry(_)));
    assert_eq!(session.updated(), 0);
}

#[test]
fn a_reply_to_another_request_changes_nothing() {
    let (session, notice) = opening().step(Reply::Size(Ok(3)));
    assert!(notice.is_none());
    assert!(matches!(session.request(), Request::Open(path) if path == &PathBuf::from("from/sub/a.txt")));
    let (session, notice) = session.step(Reply::Copied(Ok(3)));
    assert!(notice.is_none());
    assert!(matches!(session.request(), Request::Open(_)));
    let (session, notice) = walking().step(Reply::IsDir(false));
    assert!(notice.is_none());
    assert!(matches!(session.request(), Request::NextEntry(_)));
    assert_eq!(session.updated(), 0);
}

#[test]
fn an_ended_run_takes_nothing_in() {
    let (session, _) = walking().step(Reply::Walked(None));
    let (session, notice) = session.step(Reply::Walked(Some(Ok(file("to/a", "a")))));
    assert!(notice.is_none());
    assert!(matches!(session.request(), Request::Finish));
    assert!(matches!(session.result(), Some(Ok(0))));
}

/// Counts hook calls and remembers the last path.
struct Counter {
    updates: usize,
    skips: usize,
    io_errors: usize,
    walk_errors: usize,
    last: Option<PathBuf>,
}

fn counter() -> Counter {
    Counter { updates: 0, skips: 0, io_errors: 0, walk_errors: 0, last: None }
}

impl DirUpdate for Counter {
    fn on_new_file_update(&mut self, file: &PathBuf) {
        self.updates += 1;
        self.last = Some(file.clone());
    }

    fn on_new_file_skip(&mut self, file: &PathBuf) {
        self.skips += 1;
        self.last = Some(file.clone());
    }

    fn on_io_error(&mut self, file: &PathBuf, _error: io::Error) {
        self.io_errors += 1;
        self.last = Some(file.clone());
    }

    fn on_walk_error(&mut self, error: WalkError) {
        self.walk_errors += 1;
        self.last = error.path;
    }
}

#[test]
fn each_notice_reaches_its_own_hook() {
    let mut hooks = counter();
    Notice::Updated(PathBuf::from("to/a")).deliver(&mut hooks);
    assert_eq!((hooks.updates, hooks.skips, hooks.io_errors, hooks.walk_errors), (1, 0, 0, 0));
    assert_eq!(hooks.last, Some(PathBuf::from("to/a")));
    Notice::Skipped(PathBuf::from("to/b")).deliver(&mut hooks);
    assert_eq!((hooks.updates, hooks.skips, hooks.io_errors, hooks.walk_errors), (1, 1, 0, 0));
    assert_eq!(hooks.last, Some(PathBuf::from("to/b")));
    Notice::IoError(PathBuf::from("to/c"), failure("x")).deliver(&mut hooks);
    assert_eq!((hooks.updates, hooks.skips, hooks.io_errors, hooks.walk_errors), (1, 1, 1, 0));
    assert_eq!(hooks.last, Some(PathBuf::from("to/c")));
    Notice::WalkError(WalkError { path: Some(PathBuf::from("to/d")), io_error: None }).deliver(&mut hooks);
    assert_eq!((hooks.updates, hooks.skips, hooks.io_errors, hooks.walk_errors), (1, 1, 1, 1));
    assert_eq!(hooks.last, Some(PathBuf::from("to/d")));
}

#[test]
fn advancing_calls_the_hook_of_the_step() {
    let mut hooks = counter();
    let session = copying().advance(Reply::Copied(Ok(7)), &mut hooks);
    assert_eq!(session.updated(), 1);
    assert_eq!(hooks.updates, 1);
    assert_eq!(hooks.last, Some(PathBuf::from("to/sub/a.txt")));
    let session = session.advance(Reply::Walked(Some(Ok(file("to/b", "b")))), &mut hooks);
    let session = session.advance(Reply::Opened(false), &mut hooks);
    assert_eq!((hooks.updates, hooks.skips, hooks.io_errors, hooks.walk_errors), (1, 0, 0, 0));
    let session = session.advance(Reply::Walked(None), &mut hooks);
    assert!(matches!(session.result(), Some(Ok(1))));
}

#[test]
fn two_updates_count_two() {
    let mut hooks = counter();
    let mut session = walking();
    for name in ["a", "b"] {
        let path = format!("to/{}", name);
        session = session.advance(Reply::Walked(Some(Ok(file(&path, name)))), &mut hooks);
        session = session.advance(Reply::Opened(true), &mut hooks);
        session = session.advance(Reply::Size(Ok(2)), &mut hooks);
        session = session.advance(Reply::Size(Ok(1)), &mut hooks);
        session = session.advance(Reply::Created(Ok(())), &mut hooks);
        session = session.advance(Reply::Copied(Ok(2)), &mut hooks);
    }
    assert_eq!(session.updated(), 2);
    assert_eq!(hooks.updates, 2);
    assert_eq!(hooks.last, Some(PathBuf::from("to/b")));
}
