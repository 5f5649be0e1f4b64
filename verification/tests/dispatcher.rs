use std::sync::Arc;
use std::sync::atomic::{AtomicUsize, Ordering};
use std::sync::Mutex;

use frame_hooks::cleanup::{Cleanup, NoCleanup};
use frame_hooks::deps::{Deps, DepsToken};
use frame_hooks::dispatcher::Dispatcher;
use frame_hooks::hook::HookError;
use frame_hooks::hook::cleanup::CleanupHook;
use frame_hooks::hook::ephemeral_kv::EphemeralKvHook;
use frame_hooks::hook::state::{StateBackend, StateHook};
use frame_hooks::hook::two_frame_kv::{PersistedTwoFrameKvHook, TwoFrameKvHook};

const STATE_TAG: u64 = 1;
const CLEANUP_TAG: u64 = 2;
const KV_TAG: u64 = 3;

struct PushCleanup {
    called: Arc<Mutex<Vec<()>>>,
}

impl Cleanup for PushCleanup {
    fn cleanup(&mut self) {
        self.called.lock().unwrap().push(());
    }
}

struct CountCleanup {
    count: Arc<AtomicUsize>,
}

impl Cleanup for CountCleanup {
    fn cleanup(&mut self) {
        self.count.fetch_add(1, Ordering::SeqCst);
    }
}

fn assert_send_and_sync<T: Send + Sync>() {}

#[test]
fn dispatcher_is_send_and_sync() {
    assert_send_and_sync::<Dispatcher<StateBackend<i32>, NoCleanup>>();
}

#[test]
fn cleanup_cleanup() {
    let mut dispatcher: Dispatcher<StateBackend<u32>, PushCleanup> = Dispatcher::new();
    let called: Arc<Mutex<Vec<()>>> = Arc::new(Mutex::new(Vec::new()));

    // first pass: the widget registers a cleanup
    let cloned = called.clone();
    dispatcher
        .use_cleanup(
            1,
            0,
            0,
            CLEANUP_TAG,
            CleanupHook::new(PushCleanup { called: cloned }),
            ().to_token(),
            StateBackend::new(0, None),
        )
        .unwrap();
    // not called yet since this is the first frame
    assert_eq!(called.lock().unwrap().len(), 0);

    // second pass: only another widget runs
    dispatcher
        .use_hook_as(2, 0, 1, STATE_TAG, StateHook::new(0u32), ().to_token())
        .unwrap();
    // not called yet since this is the second frame
    assert_eq!(called.lock().unwrap().len(), 0);

    // third pass: the first widget has now been unreferenced for a full
    // pass boundary
    dispatcher
        .use_hook_as(2, 0, 2, STATE_TAG, StateHook::new(0u32), ().to_token())
        .unwrap();
    assert_eq!(called.lock().unwrap().len(), 1);
}

#[test]
fn clears_on_frame_advance() {
    let mut dispatcher: Dispatcher<frame_hooks::ephemeral_map::EphemeralMap<u32, u32>, NoCleanup> =
        Dispatcher::new();

    dispatcher
        .use_hook_as(1, 0, 0, KV_TAG, EphemeralKvHook::new(), ().to_token())
        .unwrap();
    let (mut kv, deps) = dispatcher.get_backend(1, 0, KV_TAG).unwrap().unwrap();
    kv.insert(0, 0);
    kv.insert(1, 1);
    dispatcher.push_backend(1, 0, KV_TAG, kv, deps);

    // same frame: the entries are still visible
    dispatcher
        .use_hook_as(1, 0, 0, KV_TAG, EphemeralKvHook::new(), ().to_token())
        .unwrap();
    let (mut kv, deps) = dispatcher.get_backend(1, 0, KV_TAG).unwrap().unwrap();
    assert_eq!(kv.get(&0), Some(&0));
    assert_eq!(kv.get(&1), Some(&1));
    dispatcher.push_backend(1, 0, KV_TAG, kv, deps);

    // next frame: the map was cleared wholesale
    dispatcher
        .use_hook_as(1, 0, 1, KV_TAG, EphemeralKvHook::new(), ().to_token())
        .unwrap();
    let (mut kv, deps) = dispatcher.get_backend(1, 0, KV_TAG).unwrap().unwrap();
    assert!(kv.get(&0).is_none());
    assert!(kv.get(&1).is_none());
    dispatcher.push_backend(1, 0, KV_TAG, kv, deps);
}

#[test]
fn test_clears_the_unused_key() {
    let mut dispatcher: Dispatcher<
        frame_hooks::two_frame_map::TwoFrameMap<u32, u32, NoCleanup>,
        NoCleanup,
    > = Dispatcher::new();

    dispatcher
        .use_hook_as(1, 0, 0, KV_TAG, TwoFrameKvHook::new(), ().to_token())
        .unwrap();
    let (mut kv, deps) = dispatcher.get_backend(1, 0, KV_TAG).unwrap().unwrap();
    kv.insert(0, 0);
    kv.insert(1, 1);
    dispatcher.push_backend(1, 0, KV_TAG, kv, deps);

    dispatcher
        .use_hook_as(1, 0, 1, KV_TAG, TwoFrameKvHook::new(), ().to_token())
        .unwrap();
    let (mut kv, deps) = dispatcher.get_backend(1, 0, KV_TAG).unwrap().unwrap();
    assert_eq!(kv.get(&0), Some(&0));
    // no access to the key 1
    dispatcher.push_backend(1, 0, KV_TAG, kv, deps);

    dispatcher
        .use_hook_as(1, 0, 2, KV_TAG, TwoFrameKvHook::new(), ().to_token())
        .unwrap();
    let (mut kv, deps) = dispatcher.get_backend(1, 0, KV_TAG).unwrap().unwrap();
    assert_eq!(kv.get(&0), Some(&0));
    assert_eq!(kv.get(&1), None);
    dispatcher.push_backend(1, 0, KV_TAG, kv, deps);
}

#[test]
fn test_clears_the_persisted_unused_key() {
    let mut dispatcher: Dispatcher<
        frame_hooks::two_frame_map::TwoFrameMap<u32, u32, NoCleanup>,
        NoCleanup,
    > = Dispatcher::new();

    dispatcher
        .use_hook_as(1, 0, 0, KV_TAG, PersistedTwoFrameKvHook::new(), ().to_token())
        .unwrap();
    let (mut kv, deps) = dispatcher.get_backend(1, 0, KV_TAG).unwrap().unwrap();
    kv.insert(0, 0);
    kv.insert(1, 1);
    dispatcher.push_backend(1, 0, KV_TAG, kv, deps);

    dispatcher
        .use_hook_as(1, 0, 1, KV_TAG, PersistedTwoFrameKvHook::new(), ().to_token())
        .unwrap();
    let (mut kv, deps) = dispatcher.get_backend(1, 0, KV_TAG).unwrap().unwrap();
    assert_eq!(kv.get(&0), Some(&0));
    // no access to the key 1
    dispatcher.push_backend(1, 0, KV_TAG, kv, deps);

    dispatcher
        .use_hook_as(1, 0, 2, KV_TAG, PersistedTwoFrameKvHook::new(), ().to_token())
        .unwrap();
    let (mut kv, deps) = dispatcher.get_backend(1, 0, KV_TAG).unwrap().unwrap();
    assert_eq!(kv.get(&0), Some(&0));
    assert_eq!(kv.get(&1), None);
    dispatcher.push_backend(1, 0, KV_TAG, kv, deps);
}

#[test]
fn type_mismatch_is_reported_with_identity_and_index() {
    let mut dispatcher: Dispatcher<StateBackend<u32>, NoCleanup> = Dispatcher::new();
    dispatcher
        .use_hook_as(7, 3, 0, STATE_TAG, StateHook::new(42u32), ().to_token())
        .unwrap();
    // same call site, different hook type: invocation-order corruption
    let r = dispatcher.use_hook_as(7, 3, 0, CLEANUP_TAG, StateHook::new(42u32), ().to_token());
    assert_eq!(
        r.err(),
        Some(HookError { id: 7, index: 3, expected_tag: CLEANUP_TAG, found_tag: STATE_TAG })
    );
    // the slot is intact and serves the original type again
    dispatcher
        .use_hook_as(7, 3, 0, STATE_TAG, StateHook::new(42u32), ().to_token())
        .unwrap();
}

#[test]
fn state_previous_reflects_last_pass_current() {
    // two consecutive passes with unchanged dependencies: the second pass
    // reads previous() equal to what the first pass saw as current
    let mut dispatcher: Dispatcher<StateBackend<u32>, NoCleanup> = Dispatcher::new();
    dispatcher
        .use_hook_as(1, 0, 1, STATE_TAG, StateHook::new(42u32), ().to_token())
        .unwrap();
    let (mut cell, deps) = dispatcher.get_backend(1, 0, STATE_TAG).unwrap().unwrap();
    assert_eq!(*cell.current(), 42);
    cell.set_next(43);
    dispatcher.push_backend(1, 0, STATE_TAG, cell, deps);

    dispatcher
        .use_hook_as(1, 0, 2, STATE_TAG, StateHook::new(42u32), ().to_token())
        .unwrap();
    let slot = dispatcher.peek_backend(1, 0).unwrap();
    assert_eq!(*slot.backend.current(), 43);
    assert_eq!(slot.backend.previous(), Some(&42));
}

#[test]
fn dependency_change_forces_reinitialization() {
    let mut dispatcher: Dispatcher<StateBackend<u32>, NoCleanup> = Dispatcher::new();
    dispatcher
        .use_hook_as(1, 0, 1, STATE_TAG, StateHook::new(5u32), 10u64.to_token())
        .unwrap();
    let (mut cell, deps) = dispatcher.get_backend(1, 0, STATE_TAG).unwrap().unwrap();
    cell.set_next(6);
    dispatcher.push_backend(1, 0, STATE_TAG, cell, deps);

    // unchanged token: the stored value survives, the default is ignored
    dispatcher
        .use_hook_as(1, 0, 2, STATE_TAG, StateHook::new(99u32), 10u64.to_token())
        .unwrap();
    let slot = dispatcher.peek_backend(1, 0).unwrap();
    assert_eq!(*slot.backend.current(), 6);

    // changed token: reinitialized to the new default, previous holds the
    // prior pass's value — not an init-time placeholder
    dispatcher
        .use_hook_as(1, 0, 3, STATE_TAG, StateHook::new(99u32), 11u64.to_token())
        .unwrap();
    let slot = dispatcher.peek_backend(1, 0).unwrap();
    assert_eq!(*slot.backend.current(), 99);
    assert_eq!(slot.backend.previous(), Some(&6));
}

#[test]
fn unused_site_expires_after_two_boundaries() {
    let mut dispatcher: Dispatcher<StateBackend<u32>, CountCleanup> = Dispatcher::new();
    let count = Arc::new(AtomicUsize::new(0));
    dispatcher
        .use_hook_as(1, 0, 1, STATE_TAG, StateHook::new(1u32), ().to_token())
        .unwrap();
    dispatcher.register_cleanup(1, CountCleanup { count: count.clone() });

    dispatcher
        .use_hook_as(2, 0, 2, STATE_TAG, StateHook::new(2u32), ().to_token())
        .unwrap();
    assert!(dispatcher.peek_backend(1, 0).is_some());
    assert_eq!(count.load(Ordering::SeqCst), 0);

    dispatcher
        .use_hook_as(2, 0, 3, STATE_TAG, StateHook::new(2u32), ().to_token())
        .unwrap();
    assert!(dispatcher.peek_backend(1, 0).is_none());
    assert_eq!(count.load(Ordering::SeqCst), 1);
}
