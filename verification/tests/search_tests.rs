use keyhunter::coordinator::{resolve_outcomes, run_search, SearchOutcome};
use keyhunter::crypto::derive_address;
use keyhunter::range::{Chunk, KeyRange};
use keyhunter::sampler::Sampler;
use keyhunter::state::SearchState;
use keyhunter::worker::{run_worker, WorkerOutcome};

fn unmatchable_target() -> String {
    // Not a Base58Check rendering of anything, so no candidate can match.
    String::from("no-such-address")
}

#[test]
fn exhaustive_sweep_tests_every_key_exactly_once() {
    // 20 keys, 4 workers: every key of the range is tested exactly once
    // across all workers combined.
    let range = KeyRange::new(0x1, 0x14).unwrap();
    let report = run_search(&range, 4, &unmatchable_target(), false);
    assert!(matches!(report.outcome, SearchOutcome::NotFound));
    assert_eq!(report.tested, 20);
}

#[test]
fn exhaustive_search_finds_known_key_for_each_worker_count() {
    // A target precomputed from a known key inside the range is found and
    // reported exactly, for 1, 4 and 16 workers, wherever the key falls.
    let range = KeyRange::new(0x1, 0x14).unwrap();
    for &workers in &[1usize, 4, 16] {
        for &key in &[0x2u128, 0xa, 0x14] {
            let target = derive_address(key).unwrap();
            let report = run_search(&range, workers, &target, false);
            match report.outcome {
                SearchOutcome::Found { key: found, address } => {
                    assert_eq!(found, key);
                    assert_eq!(address, target);
                }
                _ => panic!("expected the key to be found"),
            }
        }
    }
}

#[test]
fn randomized_search_of_single_key_chunk_finds_it() {
    let range = KeyRange::new(0x2a, 0x2a).unwrap();
    let target = derive_address(0x2a).unwrap();
    let report = run_search(&range, 1, &target, true);
    match report.outcome {
        SearchOutcome::Found { key, address } => {
            assert_eq!(key, 0x2a);
            assert_eq!(address, target);
        }
        _ => panic!("expected the key to be found"),
    }
}

#[test]
fn worker_exhausts_chunk_without_match() {
    let state = SearchState::new(unmatchable_target());
    let chunk = Chunk { start: 1, len: 10 };
    let mut sampler = Sampler::new(false, &chunk);
    let report = run_worker(&chunk, &mut sampler, &state);
    assert!(matches!(report.outcome, WorkerOutcome::Exhausted));
    assert_eq!(report.tested, 10);
    assert_eq!(report.flushed, 0);
}

#[test]
fn worker_stops_once_found_flag_is_observed() {
    // Once the flag is up, the next poll stops the worker with nothing
    // further tested or flushed.
    let state = SearchState::new(unmatchable_target());
    state.mark_found();
    let chunk = Chunk { start: 1, len: 10 };
    let mut sampler = Sampler::new(false, &chunk);
    let report = run_worker(&chunk, &mut sampler, &state);
    assert!(matches!(report.outcome, WorkerOutcome::Stopped));
    assert_eq!(report.tested, 0);
    assert_eq!(report.flushed, 0);
    assert_eq!(state.tested_count(), 0);
}

#[test]
fn worker_flushes_whole_batches_only() {
    // 2500 candidates: two batches of 1000 reach the shared count, the
    // remainder stays local, so the shared count undercounts by under one
    // batch.
    let state = SearchState::new(unmatchable_target());
    let chunk = Chunk { start: 1, len: 2500 };
    let mut sampler = Sampler::new(false, &chunk);
    let report = run_worker(&chunk, &mut sampler, &state);
    assert!(matches!(report.outcome, WorkerOutcome::Exhausted));
    assert_eq!(report.tested, 2500);
    assert_eq!(report.flushed, 2000);
    assert_eq!(state.tested_count(), 2000);
}

#[test]
fn worker_skips_invalid_zero_scalar_silently() {
    // A chunk holding the zero key: the invalid scalar is skipped, not an
    // error, and still counts as a used slot.
    let state = SearchState::new(unmatchable_target());
    let chunk = Chunk { start: 0, len: 3 };
    let mut sampler = Sampler::new(false, &chunk);
    let report = run_worker(&chunk, &mut sampler, &state);
    assert!(matches!(report.outcome, WorkerOutcome::Exhausted));
    assert_eq!(report.tested, 3);
}

#[test]
fn resolve_all_exhausted_is_not_found() {
    let outcomes = vec![WorkerOutcome::Exhausted, WorkerOutcome::Exhausted];
    assert!(matches!(resolve_outcomes(&outcomes), SearchOutcome::NotFound));
}

#[test]
fn resolve_empty_report_list_is_not_found() {
    let outcomes: Vec<WorkerOutcome> = Vec::new();
    assert!(matches!(resolve_outcomes(&outcomes), SearchOutcome::NotFound));
}

#[test]
fn resolve_first_match_wins() {
    let outcomes = vec![
        WorkerOutcome::Exhausted,
        WorkerOutcome::Matched { key: 5, address: String::from("a") },
        WorkerOutcome::Matched { key: 9, address: String::from("b") },
    ];
    match resolve_outcomes(&outcomes) {
        SearchOutcome::Found { key, address } => {
            assert_eq!(key, 5);
            assert_eq!(address, "a");
        }
        _ => panic!("expected a match"),
    }
}

#[test]
fn resolve_stopped_without_match_is_inconclusive() {
    let outcomes = vec![WorkerOutcome::Stopped, WorkerOutcome::Exhausted];
    assert!(matches!(resolve_outcomes(&outcomes), SearchOutcome::Stopped));
}
