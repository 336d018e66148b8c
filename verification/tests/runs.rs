use std::io::Write;
use std::path::Path;
use tempfile::NamedTempFile;
use tempfile::TempDir;
use warmfs::Warmer;

fn file_of_len(dir: &Path, len: usize) -> NamedTempFile {
    let mut file = NamedTempFile::new_in(dir).unwrap();
    file.write_all(&vec![7u8; len]).unwrap();
    file.flush().unwrap();
    file
}

fn path_string(p: &Path) -> String {
    p.to_str().unwrap().to_string()
}

#[test]
fn estimate_sums_all_file_sizes() {
    let root = TempDir::new().unwrap();
    let _a = file_of_len(root.path(), 10);
    let _b = file_of_len(root.path(), 250);
    let _c = file_of_len(root.path(), 4000);
    let warmer = Warmer::new(vec![path_string(root.path())], 2, false);
    assert_eq!(warmer.estimate(), 10 + 250 + 4000);
}

#[test]
fn warm_single_file_counts_every_byte() {
    let root = TempDir::new().unwrap();
    let file = file_of_len(root.path(), 3000);
    let warmer = Warmer::new(vec![path_string(file.path())], 1, false);
    assert_eq!(warmer.warm(), 3000);
    let mut counts = Vec::new();
    let mut run = warmer.iter_warm();
    while let Some(count) = run.next() {
        counts.push(count);
    }
    counts.sort();
    assert_eq!(counts, vec![952, 1024, 1024]);
}

#[test]
fn warm_chunking_at_boundaries() {
    let root = TempDir::new().unwrap();
    let exact = file_of_len(root.path(), 1024);
    let warmer = Warmer::new(vec![path_string(exact.path())], 1, false);
    let mut run = warmer.iter_warm();
    let mut counts = Vec::new();
    while let Some(count) = run.next() {
        counts.push(count);
    }
    assert_eq!(counts, vec![1024]);

    let over = file_of_len(root.path(), 1025);
    let warmer = Warmer::new(vec![path_string(over.path())], 1, false);
    let mut run = warmer.iter_warm();
    let mut counts = Vec::new();
    while let Some(count) = run.next() {
        counts.push(count);
    }
    counts.sort();
    assert_eq!(counts, vec![1, 1024]);
}

#[test]
fn empty_file_emits_no_chunks() {
    let root = TempDir::new().unwrap();
    let empty = NamedTempFile::new_in(root.path()).unwrap();
    let warmer = Warmer::new(vec![path_string(empty.path())], 1, false);
    let mut run = warmer.iter_warm();
    assert_eq!(run.next(), None);
    assert_eq!(warmer.warm(), 0);
    assert_eq!(warmer.estimate(), 0);
}

#[test]
fn estimate_and_warm_are_idempotent() {
    let root = TempDir::new().unwrap();
    let _a = file_of_len(root.path(), 1234);
    let _b = file_of_len(root.path(), 56);
    let warmer = Warmer::new(vec![path_string(root.path())], 3, false);
    let first = warmer.estimate();
    let second = warmer.estimate();
    assert_eq!(first, second);
    assert_eq!(first, 1234 + 56);
    let first = warmer.warm();
    let second = warmer.warm();
    assert_eq!(first, second);
    assert_eq!(first, 1234 + 56);
}

#[test]
fn totals_do_not_depend_on_thread_count() {
    let root = TempDir::new().unwrap();
    let mut files = Vec::new();
    for len in [100usize, 2000, 0, 1024, 777, 4096] {
        files.push(file_of_len(root.path(), len));
    }
    let expected = 100 + 2000 + 0 + 1024 + 777 + 4096;
    for threads in [1usize, 2, 8] {
        let warmer = Warmer::new(vec![path_string(root.path())], threads, false);
        assert_eq!(warmer.estimate(), expected);
        assert_eq!(warmer.warm(), expected);
    }
}

#[test]
fn missing_path_contributes_nothing() {
    let root = TempDir::new().unwrap();
    let _a = file_of_len(root.path(), 640);
    let missing = root.path().join("not-there");
    let warmer = Warmer::new(vec![path_string(&missing)], 2, false);
    assert_eq!(warmer.estimate(), 0);
    assert_eq!(warmer.warm(), 0);
    let warmer = Warmer::new(vec![path_string(&missing), path_string(root.path())], 2, false);
    assert_eq!(warmer.estimate(), 640);
    assert_eq!(warmer.warm(), 640);
}

#[test]
fn end_to_end_tree() {
    let root = TempDir::new().unwrap();
    let _a = file_of_len(root.path(), 500);
    let sub = TempDir::new_in(root.path()).unwrap();
    let _b = file_of_len(sub.path(), 2000);
    let warmer = Warmer::new(vec![path_string(root.path())], 4, false);
    assert_eq!(warmer.estimate(), 2500);
    assert_eq!(warmer.warm(), 2500);
    let mut run = warmer.iter_warm();
    let mut counts = Vec::new();
    while let Some(count) = run.next() {
        counts.push(count);
    }
    counts.sort();
    assert_eq!(counts, vec![500, 976, 1024]);
}

#[test]
fn streams_can_be_drained_incrementally() {
    let root = TempDir::new().unwrap();
    let _a = file_of_len(root.path(), 300);
    let _b = file_of_len(root.path(), 200);
    let warmer = Warmer::new(vec![path_string(root.path())], 2, false);
    let mut run = warmer.iter_estimate();
    let mut total = 0u64;
    let mut values = 0usize;
    while let Some(count) = run.next() {
        total += count;
        values += 1;
    }
    assert_eq!(total, 500);
    assert_eq!(values, 2);
    assert_eq!(run.next(), None);
    assert_eq!(run.next(), None);
    assert_eq!(run.next(), None);
}

#[test]
fn entry_policy_truth_table() {
    for is_file in [false, true] {
        for is_root_link in [false, true] {
            for target_is_file in [false, true] {
                let accepted = warmfs::accepts_entry(is_file, is_root_link, target_is_file);
                assert_eq!(accepted, is_file || (is_root_link && target_is_file));
            }
        }
    }
    assert!(warmfs::accepts_entry(true, false, false));
    assert!(warmfs::accepts_entry(false, true, true));
    assert!(!warmfs::accepts_entry(false, true, false));
    assert!(!warmfs::accepts_entry(false, false, true));
    assert!(!warmfs::accepts_entry(false, false, false));
}
