//! Entries and failures as a real walk hands them out.

use dir_update::{skip_hidden, Entry, Reply, Session, WalkError};
use std::io;
use std::path::PathBuf;
use walkdir::WalkDir;

/// The entry that a walk of `root` hands out for the root itself.
fn root_entry(root: &str) -> walkdir::DirEntry {
    WalkDir::new(root)
        .max_depth(0)
        .into_iter()
        .next()
        .expect("a walk starts with its root")
        .expect("the root can be read")
}

#[test]
fn entry_of_a_walk_is_read_into_its_parts() {
    let walked = root_entry("/");
    let entry = Entry::from_walk(&PathBuf::from("/"), &walked).expect("a root lies below itself");
    assert_eq!(entry.path, PathBuf::from("/"));
    assert_eq!(entry.short_path, PathBuf::from(""));
    assert!(entry.is_dir);
    assert!(!entry.is_excluded());
}

#[test]
fn entry_of_a_walk_outside_the_root_is_none() {
    let walked = root_entry("/");
    assert!(Entry::from_walk(&PathBuf::from("/somewhere/else"), &walked).is_none());
}

#[test]
fn root_of_a_walk_is_kept() {
    assert!(skip_hidden(&root_entry("/")));
}

#[test]
fn root_of_a_walk_is_kept_with_a_leading_dot_too() {
    let walked = root_entry(".");
    assert!(skip_hidden(&walked));
    let entry = Entry::from_walk(&PathBuf::from("."), &walked).expect("a root lies below itself");
    assert_eq!(entry.path, PathBuf::from("."));
    assert!(!entry.is_excluded());
    assert!(skip_hidden(&root_entry("..")));
}

#[test]
fn below_the_root_a_walk_keeps_what_has_no_leading_dot() {
    let mut kept = 0;
    for item in WalkDir::new("/").max_depth(1) {
        let walked = match item {
            Ok(walked) => walked,
            Err(_) => continue,
        };
        let dotted = walked.file_name().to_string_lossy().starts_with('.');
        let keep = walked.depth() == 0 || !dotted;
        assert_eq!(skip_hidden(&walked), keep, "{}", walked.path().display());
        let entry = Entry::from_walk(&PathBuf::from("/"), &walked).expect("below the root");
        assert_eq!(entry.is_excluded(), !keep, "{}", walked.path().display());
        if keep {
            kept += 1;
        }
    }
    assert!(kept >= 1);
}

#[test]
fn a_walk_with_the_filter_hands_out_nothing_excluded() {
    for item in WalkDir::new("/").max_depth(2).into_iter().filter_entry(skip_hidden) {
        let walked = match item {
            Ok(walked) => walked,
            Err(_) => continue,
        };
        let entry = Entry::from_walk(&PathBuf::from("/"), &walked).expect("below the root");
        assert!(!entry.is_excluded(), "{}", walked.path().display());
    }
}

#[test]
fn failure_of_a_walk_is_read_into_path_and_cause() {
    let missing = "/no/such/directory/to/walk";
    let error = WalkDir::new(missing)
        .into_iter()
        .next()
        .expect("a walk starts with its root")
        .expect_err("the root does not exist");
    let failure = WalkError::from_walk(error);
    assert_eq!(failure.path, Some(PathBuf::from(missing)));
    assert_eq!(failure.io_error.as_ref().expect("a cause").kind(), io::ErrorKind::NotFound);
    assert!(failure.message().starts_with("/no/such/directory/to/walk: Cannot access file. Error: "));
}

#[test]
fn end_of_a_walk_becomes_the_reply_that_ends_it() {
    let session = Session::begin(PathBuf::from("from"), PathBuf::from("/"));
    assert!(matches!(session.walked(None), Some(Reply::Walked(None))));
}

#[test]
fn walked_entry_becomes_a_reply_with_its_place_below_the_root() {
    let session = Session::begin(PathBuf::from("from"), PathBuf::from("/"));
    match session.walked(Some(Ok(root_entry("/")))) {
        Some(Reply::Walked(Some(Ok(entry)))) => {
            assert_eq!(entry.path, PathBuf::from("/"));
            assert_eq!(entry.short_path, PathBuf::from(""));
            assert!(entry.is_dir);
        }
        other => panic!("an entry is handed on, not {:?}", other),
    }
}

#[test]
fn walked_entry_outside_the_root_has_no_reply() {
    let session = Session::begin(PathBuf::from("from"), PathBuf::from("/somewhere/else"));
    assert!(session.walked(Some(Ok(root_entry("/")))).is_none());
}

#[test]
fn failed_walk_becomes_a_reply_with_path_and_cause() {
    let session = Session::begin(PathBuf::from("from"), PathBuf::from("/"));
    let missing = "/no/such/directory/to/walk";
    let item = WalkDir::new(missing).into_iter().next();
    match session.walked(item) {
        Some(Reply::Walked(Some(Err(failure)))) => {
            assert_eq!(failure.path, Some(PathBuf::from(missing)));
            assert_eq!(failure.io_error.expect("a cause").kind(), io::ErrorKind::NotFound);
        }
        other => panic!("a failure is handed on, not {:?}", other),
    }
}
