//! Shared coordination state: the immutable target address, a monotone
//! tested-count, and a monotone found flag.
//!
//! Both counters are atomics so that workers on separate threads may share
//! one state by reference.  The count only grows and the flag only flips
//! from false to true, so no mutual exclusion is needed; nothing is assumed
//! about the value an atomic read returns, since another worker may have
//! written in between.

use vstd::prelude::*;
use core::sync::atomic::AtomicBool;
use core::sync::atomic::AtomicU64;

verus! {

/// The state one search run shares among its workers and its reporter.
pub struct SearchState {
    /// The address the search attempts to match, immutable for the run.
    pub target: String,
    /// Running tested-count, updated by batched atomic increments; at any
    /// instant it may undercount true progress by up to one batch per worker.
    pub tested: AtomicU64,
    /// Set once a worker has located a match; observed by all workers.
    pub found: AtomicBool,
}

impl SearchState {
    /// A fresh state for one run: nothing tested, nothing found.
    pub fn new(target: String) -> (s: SearchState)
        ensures
            s.target == target,
    {
        SearchState {
            target,
            tested: AtomicU64::new(0),
            found: AtomicBool::new(false),
        }
    }

    /// Polls the found flag.  The result says nothing provable: another
    /// worker may store at any moment.
    pub fn is_found(&self) -> bool {
        self.found.load(core::sync::atomic::Ordering::SeqCst)
    }

    /// Raises the found flag; it is never lowered again.
    pub fn mark_found(&self) {
        self.found.store(true, core::sync::atomic::Ordering::SeqCst);
    }

    /// Flushes one batch of locally counted candidates into the shared
    /// tested-count with a single atomic add.
    pub fn add_tested(&self, batch: u64) {
        self.tested.fetch_add(batch, core::sync::atomic::Ordering::SeqCst);
    }

    /// Samples the shared tested-count.
    pub fn tested_count(&self) -> u64 {
        self.tested.load(core::sync::atomic::Ordering::SeqCst)
    }
}

} // verus!
