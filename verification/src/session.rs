//! The warm session: targets, concurrency settings, and the coordinator
//! that drives one estimate-or-warm run.
//!
//! A run spawns a background coordinator, which walks the target paths and
//! submits one job per regular file to a bounded worker pool; each job
//! sends its byte counts onto the run's channel. Every per-path failure
//! (missing path, permission error, broken symlink, read error) is
//! silently absorbed: the path contributes zero bytes and the run goes on.

use crate::chunks::CHUNK_LEN;
use crate::ext::channel_new;
use crate::ext::entry_depth;
use crate::ext::entry_is_file;
use crate::ext::entry_is_symlink;
use crate::ext::next_entry;
use crate::ext::open_entry;
use crate::ext::pool_execute;
use crate::ext::pool_new;
use crate::ext::read_chunk;
use crate::ext::send_count;
use crate::ext::sender_clone;
use crate::ext::spawn_coordinator;
use crate::ext::start_walk;
use crate::ext::stat_is_file;
use crate::ext::stat_size;
use crate::stream::new_run;
use crate::stream::Iter;
use std::sync::mpsc::Sender;
use vstd::prelude::*;
use walkdir::DirEntry;

verus! {

/// What a run does with each discovered file: report its size, or read it.
#[derive(Clone, Copy)]
pub(crate) enum Mode {
    Estimate,
    Warm,
}

/// The warmer: a set of target paths (directories or single files), a
/// concurrency limit, and a symlink policy. Immutable once built; each
/// call that starts a run creates fresh channel and pool state, so a
/// warmer can be reused across independent runs.
pub struct Warmer {
    paths: Vec<String>,
    num_threads: usize,
    follow_links: bool,
}

impl Warmer {
    /// The target paths, as sequences of characters.
    pub closed spec fn spec_paths(&self) -> Seq<Seq<char>> {
        self.paths@.map_values(|p: String| p@)
    }

    /// The concurrency limit: how many worker jobs may run at once.
    pub closed spec fn spec_num_threads(&self) -> usize {
        self.num_threads
    }

    /// Whether directory walks traverse into symbolic links.
    pub closed spec fn spec_follow_links(&self) -> bool {
        self.follow_links
    }

    /// A warmer is well formed when its concurrency limit is positive.
    pub open spec fn wf(&self) -> bool {
        self.spec_num_threads() >= 1
    }

    /// Creates a new warmer over `paths`, with up to `num_threads` files
    /// in flight at once and the given symlink policy.
    pub fn new(paths: Vec<String>, num_threads: usize, follow_links: bool) -> (warmer: Warmer)
        requires
            num_threads >= 1,
        ensures
            warmer.spec_paths() == paths@.map_values(|p: String| p@),
            warmer.spec_num_threads() == num_threads,
            warmer.spec_follow_links() == follow_links,
            warmer.wf(),
    {
        Warmer { paths, num_threads, follow_links }
    }

    /// Estimates the total size to read: walks the targets, queries each
    /// regular file's size without reading its contents, and returns the
    /// total number of bytes, saturating at `u64::MAX`. Unreadable or
    /// vanished paths contribute zero bytes.
    pub fn estimate(&self) -> u64
        requires
            self.wf(),
    {
        let mut run = self.iter_estimate();
        run.drain_total()
    }

    /// Reads every discoverable regular file in full and returns the total
    /// number of bytes actually read, saturating at `u64::MAX`. Unreadable
    /// paths contribute zero bytes; a mid-read error stops that one file.
    pub fn warm(&self) -> u64
        requires
            self.wf(),
    {
        let mut run = self.iter_warm();
        run.drain_total()
    }

    /// Starts an estimation run and returns its stream of per-file sizes
    /// without waiting for the walk: all discovery happens on background
    /// threads.
    pub fn iter_estimate(&self) -> (run: Iter)
        requires
            self.wf(),
        ensures
            run@ == Seq::<u64>::empty(),
            !run.is_done(),
    {
        self.start_run(Mode::Estimate)
    }

    /// Starts a warming run and returns its stream of per-chunk read
    /// counts without waiting for the walk or the reads.
    pub fn iter_warm(&self) -> (run: Iter)
        requires
            self.wf(),
        ensures
            run@ == Seq::<u64>::empty(),
            !run.is_done(),
    {
        self.start_run(Mode::Warm)
    }

    /// Starts one run: fresh channel, a single background thread for the
    /// coordinator, and a stream that has yielded nothing yet.
    fn start_run(&self, mode: Mode) -> (run: Iter)
        requires
            self.wf(),
        ensures
            run@ == Seq::<u64>::empty(),
            !run.is_done(),
    {
        let (tx, rx) = channel_new();
        let runner = pool_new(1);
        spawn_coordinator(
            runner,
            clone_paths(&self.paths),
            self.num_threads,
            self.follow_links,
            mode,
            tx,
        );
        new_run(rx)
    }
}

/// Copies the target paths for the background coordinator, keeping every
/// character of every path.
fn clone_paths(paths: &Vec<String>) -> (copy: Vec<String>)
    ensures
        copy@.len() == paths@.len(),
        forall|i: int| 0 <= i < paths@.len() ==> #[trigger] copy@[i]@ == paths@[i]@,
{
    let mut copy: Vec<String> = Vec::new();
    let mut i: usize = 0;
    while i < paths.len()
        invariant
            i <= paths.len(),
            copy@.len() == i,
            forall|j: int| 0 <= j < i ==> #[trigger] copy@[j]@ == paths@[j]@,
        decreases paths.len() - i,
    {
        copy.push(paths[i].clone());
        i = i + 1;
    }
    copy
}

/// The coordinator of one run: builds the worker pool, walks every target
/// path in turn, and submits one job per discovered regular file, so
/// warming can start on already-discovered files while later subtrees are
/// still being walked. Entries that error during enumeration are skipped.
pub(crate) fn coordinate(
    paths: Vec<String>,
    num_threads: usize,
    follow_links: bool,
    mode: Mode,
    results: Sender<u64>,
)
    requires
        num_threads >= 1,
{
    let pool = pool_new(num_threads);
    let mut i: usize = 0;
    while i < paths.len()
        invariant
            i <= paths.len(),
        decreases paths.len() - i,
    {
        let mut walk = start_walk(&paths[i], follow_links);
        let mut fuel: u64 = u64::MAX;
        while fuel > 0
            decreases fuel,
        {
            fuel = fuel - 1;
            match next_entry(&mut walk) {
                None => {
                    break;
                },
                Some(None) => {},
                Some(Some(entry)) => {
                    if resolves_to_file(&entry) {
                        let tx = sender_clone(&results);
                        pool_execute(&pool, mode, entry, tx);
                    }
                },
            }
        }
        i = i + 1;
    }
}

/// The path-resolution policy: a walk entry is worked on if and only if it
/// is a regular file, or it is a target path handed in directly that is a
/// symbolic link whose target is a regular file. Everything else -
/// directories, unresolved symlinks inside a walk, broken or vanished
/// paths - is silently skipped.
///
/// The three facts come from the filesystem; this function is the whole
/// decision taken on them.
pub fn accepts_entry(is_file: bool, is_root_link: bool, target_is_file: bool) -> (accepted: bool)
    ensures
        accepted == (is_file || (is_root_link && target_is_file)),
{
    is_file || (is_root_link && target_is_file)
}

/// The path resolver: gathers what the filesystem says about one walk
/// entry - whether it is a regular file, whether it is a target path
/// (walk depth 0) that is a symbolic link, and, only then, whether that
/// link's target is a regular file - and applies [`accepts_entry`] to it.
fn resolves_to_file(entry: &DirEntry) -> bool {
    let is_file = entry_is_file(entry);
    let is_root_link = !is_file && entry_depth(entry) == 0 && entry_is_symlink(entry);
    let target_is_file = if is_root_link {
        stat_is_file(entry)
    } else {
        false
    };
    accepts_entry(is_file, is_root_link, target_is_file)
}

/// One unit of work: estimate or read a single discovered file, sending
/// its byte counts onto the run's channel.
pub(crate) fn run_job(mode: Mode, entry: DirEntry, results: Sender<u64>) {
    match mode {
        Mode::Estimate => estimate_job(&entry, &results),
        Mode::Warm => warm_job(&entry, &results),
    }
}

/// Estimation of one file: sends its size in bytes, read from metadata
/// only, or nothing if the metadata cannot be obtained.
fn estimate_job(entry: &DirEntry, results: &Sender<u64>) {
    match stat_size(entry) {
        Some(size) => send_count(results, size),
        None => {},
    }
}

/// Warming of one file: reads it sequentially in chunks of `CHUNK_LEN`
/// bytes, sending one count per chunk actually read, and stops at end of
/// file or on a read error. Sends nothing if the file cannot be opened.
fn warm_job(entry: &DirEntry, results: &Sender<u64>) {
    let mut file = match open_entry(entry) {
        Some(file) => file,
        None => {
            return;
        },
    };
    let mut buf: Vec<u8> = vec![0u8; CHUNK_LEN];
    let mut fuel: u64 = u64::MAX;
    while fuel > 0
        invariant
            buf@.len() == CHUNK_LEN,
        decreases fuel,
    {
        fuel = fuel - 1;
        match read_chunk(&mut file, &mut buf) {
            None => {
                break;
            },
            Some(count) => {
                if count == 0 {
                    break;
                }
                assert(1 <= count <= CHUNK_LEN);
                send_count(results, count as u64);
            },
        }
    }
}

} // verus!
