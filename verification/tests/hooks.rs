use std::sync::Arc;
use std::sync::atomic::{AtomicUsize, Ordering};

use frame_hooks::cleanup::NoCleanup;
use frame_hooks::deps::{Deps, DepsToken};
use frame_hooks::dispatcher::Dispatcher;
use frame_hooks::hook::effect::EffectHook;
use frame_hooks::hook::memo::MemoHook;
use frame_hooks::indexer::HookIndexer;

const MEMO_TAG: u64 = 6;
const EFFECT_TAG: u64 = 7;

#[test]
fn memo_recomputes_only_on_dependency_change() {
    let mut dispatcher: Dispatcher<u32, NoCleanup> = Dispatcher::new();
    let calls = Arc::new(AtomicUsize::new(0));

    for pass in 0..3u64 {
        let counter = calls.clone();
        let out = dispatcher
            .use_hook_as(
                1,
                0,
                pass,
                MEMO_TAG,
                MemoHook { callback: move || { counter.fetch_add(1, Ordering::SeqCst); 7u32 } },
                10u64.to_token(),
            )
            .unwrap();
        assert_eq!(out, 7);
    }
    // computed once, returned from the backend afterwards
    assert_eq!(calls.load(Ordering::SeqCst), 1);

    let counter = calls.clone();
    let out = dispatcher
        .use_hook_as(
            1,
            0,
            3,
            MEMO_TAG,
            MemoHook { callback: move || { counter.fetch_add(1, Ordering::SeqCst); 9u32 } },
            11u64.to_token(),
        )
        .unwrap();
    assert_eq!(out, 9);
    assert_eq!(calls.load(Ordering::SeqCst), 2);
}

#[test]
fn effect_runs_once_per_dependency_epoch() {
    let mut dispatcher: Dispatcher<bool, NoCleanup> = Dispatcher::new();
    let runs = Arc::new(AtomicUsize::new(0));

    for pass in 0..3u64 {
        let counter = runs.clone();
        dispatcher
            .use_hook_as(
                1,
                0,
                pass,
                EFFECT_TAG,
                EffectHook { callback: move || { counter.fetch_add(1, Ordering::SeqCst); } },
                true.to_token(),
            )
            .unwrap();
    }
    assert_eq!(runs.load(Ordering::SeqCst), 1);

    // a dependency change starts a new epoch: the effect runs once more
    let counter = runs.clone();
    dispatcher
        .use_hook_as(
            1,
            0,
            3,
            EFFECT_TAG,
            EffectHook { callback: move || { counter.fetch_add(1, Ordering::SeqCst); } },
            false.to_token(),
        )
        .unwrap();
    assert_eq!(runs.load(Ordering::SeqCst), 2);
}

#[test]
fn tokens_of_equal_values_are_equal() {
    assert!(1u64.to_token().equals(&1u64.to_token()));
    assert!(().to_token().equals(&().to_token()));
    assert!(true.to_token().equals(&true.to_token()));
    assert!((1u64, 2u64).to_token().equals(&(1u64, 2u64).to_token()));
}

#[test]
fn tokens_of_distinct_values_differ() {
    assert!(!1u64.to_token().equals(&2u64.to_token()));
    assert!(!true.to_token().equals(&false.to_token()));
    assert!(!(1u64, 2u64).to_token().equals(&(2u64, 1u64).to_token()));
}

#[test]
fn tokens_of_mismatched_types_never_compare_equal() {
    assert!(!().to_token().equals(&0u64.to_token()));
    assert!(!true.to_token().equals(&1u64.to_token()));
    assert!(!(0u64, 0u64).to_token().equals(&0u64.to_token()));
}

#[test]
fn token_comparison_checks_words() {
    let a = DepsToken { type_tag: 9, words: vec![1, 2, 3] };
    let b = DepsToken { type_tag: 9, words: vec![1, 2, 3] };
    let c = DepsToken { type_tag: 9, words: vec![1, 2] };
    assert!(a.equals(&b));
    assert!(!a.equals(&c));
}

#[test]
fn indexer_counts_per_identity_and_resets_per_pass() {
    let mut indexer = HookIndexer::new();
    assert_eq!(indexer.next_index(1, 5), 0);
    assert_eq!(indexer.next_index(1, 5), 1);
    assert_eq!(indexer.next_index(2, 5), 0);
    assert_eq!(indexer.next_index(1, 5), 2);
    // a new pass resets every counter
    assert_eq!(indexer.next_index(1, 6), 0);
    assert_eq!(indexer.next_index(2, 6), 0);
    assert_eq!(indexer.next_index(2, 6), 1);
}
