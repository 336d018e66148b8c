//! The trusted boundary: declarations of the outside types the warmer works
//! with and thin wrappers around every outside call it makes.
//!
//! Everything a run learns from the filesystem (which entries a walk yields,
//! a file's size, what a read returns) depends on the state of the disk, so
//! the wrappers promise nothing about those values beyond what holds of
//! every outcome; the verified code around them decides what to do with
//! whatever came back.

use crate::session::coordinate;
use crate::session::run_job;
use crate::session::Mode;
use std::io::Read;
use std::sync::mpsc::Receiver;
use std::sync::mpsc::Sender;
use threadpool::ThreadPool;
use vstd::prelude::*;
use walkdir::DirEntry;
use walkdir::IntoIter;
use walkdir::WalkDir;

verus! {

#[verifier::external_type_specification]
#[verifier::external_body]
pub struct ExThreadPool(ThreadPool);

#[verifier::external_type_specification]
#[verifier::external_body]
pub struct ExWalkIntoIter(IntoIter);

#[verifier::external_type_specification]
#[verifier::external_body]
pub struct ExDirEntry(DirEntry);

#[verifier::external_type_specification]
#[verifier::external_body]
pub struct ExWalkError(walkdir::Error);

#[verifier::external_type_specification]
#[verifier::external_body]
#[verifier::reject_recursive_types(T)]
pub struct ExSender<T>(Sender<T>);

#[verifier::external_type_specification]
#[verifier::external_body]
#[verifier::reject_recursive_types(T)]
pub struct ExReceiver<T>(Receiver<T>);

#[verifier::external_type_specification]
#[verifier::external_body]
pub struct ExFile(fs_err::File);

/// The number of worker threads a pool was built with: the bound on how
/// many of its jobs ever run concurrently.
pub uninterp spec fn pool_limit(pool: ThreadPool) -> usize;

/// Relies on threadpool::ThreadPool::new: a pool of exactly `num_threads`
/// worker threads, so at most `num_threads` submitted jobs ever execute
/// concurrently. ThreadPool::new panics when `num_threads` is 0, so that
/// input is excluded.
#[verifier::external_body]
pub(crate) fn pool_new(num_threads: usize) -> (pool: ThreadPool)
    requires
        num_threads >= 1,
    ensures
        pool_limit(pool) == num_threads,
{
    ThreadPool::new(num_threads)
}

/// Relies on threadpool::ThreadPool::execute: runs the coordinator of one
/// run on a pool thread, so the caller returns without waiting for the
/// walk. The closure only calls the library's verified coordinator.
#[verifier::external_body]
pub(crate) fn spawn_coordinator(
    runner: ThreadPool,
    paths: Vec<String>,
    num_threads: usize,
    follow_links: bool,
    mode: Mode,
    results: Sender<u64>,
)
    requires
        num_threads >= 1,
{
    runner.execute(move || coordinate(paths, num_threads, follow_links, mode, results));
}

/// Relies on threadpool::ThreadPool::execute: enqueues one per-file job;
/// the pool runs every submitted job eventually, at most `pool_limit(*pool)`
/// of them concurrently. The closure only calls the library's verified
/// per-file job.
#[verifier::external_body]
pub(crate) fn pool_execute(pool: &ThreadPool, mode: Mode, entry: DirEntry, results: Sender<u64>) {
    pool.execute(move || run_job(mode, entry, results));
}

/// Relies on std::sync::mpsc::channel: a new channel; values sent on the
/// sender arrive at the receiver.
#[verifier::external_body]
pub(crate) fn channel_new() -> (Sender<u64>, Receiver<u64>) {
    std::sync::mpsc::channel()
}

/// Relies on std::sync::mpsc::Sender::clone: another handle sending to the
/// same receiver.
#[verifier::external_body]
pub(crate) fn sender_clone(sender: &Sender<u64>) -> Sender<u64> {
    sender.clone()
}

/// Relies on std::sync::mpsc::Sender::send: best-effort delivery of one
/// byte count; sending to a dropped receiver fails without blocking and the
/// failure is deliberately ignored.
#[verifier::external_body]
pub(crate) fn send_count(sender: &Sender<u64>, count: u64) {
    let _ = sender.send(count);
}

/// Relies on std::sync::mpsc::Receiver::recv: blocks for the next value;
/// `None` once every sender handle has been dropped, which is how a run
/// signals that all its jobs have finished.
#[verifier::external_body]
pub(crate) fn recv_count(receiver: &Receiver<u64>) -> Option<u64> {
    receiver.recv().ok()
}

/// Relies on walkdir::WalkDir::new, WalkDir::follow_links and
/// WalkDir::into_iter: a depth-first walk rooted at `root`, traversing into
/// directory symlinks only when `follow_links` is set (walkdir then detects
/// symlink cycles and yields them as errors instead of looping).
#[verifier::external_body]
pub(crate) fn start_walk(root: &String, follow_links: bool) -> IntoIter {
    WalkDir::new(root).follow_links(follow_links).into_iter()
}

/// Relies on the Iterator impl of walkdir::IntoIter: `None` once the walk
/// is exhausted; an entry that errored during enumeration (permission
/// denied, vanished file, symlink cycle) comes back as `Some(None)`.
#[verifier::external_body]
pub(crate) fn next_entry(walk: &mut IntoIter) -> Option<Option<DirEntry>> {
    match walk.next() {
        None => None,
        Some(Err(_)) => Some(None),
        Some(Ok(entry)) => Some(Some(entry)),
    }
}

/// Relies on walkdir::DirEntry::file_type and std's FileType::is_file:
/// whether the entry is a regular file (for a followed symlink, whether its
/// target is).
#[verifier::external_body]
pub(crate) fn entry_is_file(entry: &DirEntry) -> bool {
    entry.file_type().is_file()
}

/// Relies on walkdir::DirEntry::depth: how many directories below the
/// target path the entry was found; 0 for the target path itself.
#[verifier::external_body]
pub(crate) fn entry_depth(entry: &DirEntry) -> usize {
    entry.depth()
}

/// Relies on walkdir::DirEntry::path_is_symlink: whether the entry's own
/// path is a symbolic link.
#[verifier::external_body]
pub(crate) fn entry_is_symlink(entry: &DirEntry) -> bool {
    entry.path_is_symlink()
}

/// Relies on fs_err::metadata and std's FileType::is_file: whether the
/// entry's path, with symbolic links resolved, denotes a regular file;
/// `false` if the metadata cannot be obtained (broken link, missing path).
#[verifier::external_body]
pub(crate) fn stat_is_file(entry: &DirEntry) -> bool {
    match fs_err::metadata(entry.path()) {
        Ok(meta) => meta.file_type().is_file(),
        Err(_) => false,
    }
}

/// Relies on fs_err::metadata and std's Metadata::len: the size in bytes
/// of the file the entry's path points to, with symbolic links resolved,
/// or `None` if the metadata cannot be obtained.
#[verifier::external_body]
pub(crate) fn stat_size(entry: &DirEntry) -> Option<u64> {
    match fs_err::metadata(entry.path()) {
        Ok(meta) => Some(meta.len()),
        Err(_) => None,
    }
}

/// Relies on fs_err::File::open and walkdir::DirEntry::path: the entry's
/// file opened for reading, or `None` if it cannot be opened.
#[verifier::external_body]
pub(crate) fn open_entry(entry: &DirEntry) -> Option<fs_err::File> {
    match fs_err::File::open(entry.path()) {
        Ok(file) => Some(file),
        Err(_) => None,
    }
}

/// Relies on std::io::Read::read as implemented by fs_err::File: reads at
/// most `buf.len()` bytes into `buf` and returns how many were read, 0 at
/// end of file; a read error comes back as `None`. The buffer keeps its
/// length either way.
#[verifier::external_body]
pub(crate) fn read_chunk(file: &mut fs_err::File, buf: &mut Vec<u8>) -> (count: Option<usize>)
    ensures
        (match count {
            Some(n) => n <= old(buf).len(),
            None => true,
        }),
        final(buf).len() == old(buf).len(),
{
    match file.read(buf.as_mut_slice()) {
        Ok(n) => Some(n),
        Err(_) => None,
    }
}

} // verus!
