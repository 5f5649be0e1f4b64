use frame_hooks::cleanup::NoCleanup;
use frame_hooks::deps::Deps;
use frame_hooks::dispatcher::Dispatcher;
use frame_hooks::hook::persistent_state::{PersistentStateBackend, PersistentStateHook};
use frame_hooks::hook::state::StateBackend;

const TAG: u64 = 5;

/// What the host would mirror into its durable store for the call site.
fn get_persisted(
    dispatcher: &Dispatcher<PersistentStateBackend<i32>, NoCleanup>,
    id: u64,
    index: usize,
) -> Option<i32> {
    dispatcher
        .peek_backend(id, index)
        .map(|slot| *slot.backend.inner.current())
}

#[test]
fn persistent_state_test_saved_on_init() {
    let mut dispatcher: Dispatcher<PersistentStateBackend<i32>, NoCleanup> = Dispatcher::new();
    dispatcher
        .use_hook_as(1, 0, 0, TAG, PersistentStateHook::new(42), ().to_token())
        .unwrap();
    assert_eq!(get_persisted(&dispatcher, 1, 0), Some(42));
}

#[test]
fn persistent_state_test_saved_on_set_next() {
    let mut dispatcher: Dispatcher<PersistentStateBackend<i32>, NoCleanup> = Dispatcher::new();
    dispatcher
        .use_hook_as(1, 0, 0, TAG, PersistentStateHook::new(42), ().to_token())
        .unwrap();
    let (mut backend, deps) = dispatcher.get_backend(1, 0, TAG).unwrap().unwrap();
    backend.inner.set_next(43);
    dispatcher.push_backend(1, 0, TAG, backend, deps);
    assert_eq!(get_persisted(&dispatcher, 1, 0), Some(43));
}

#[test]
fn persistent_state_use_persisted_value_on_init() {
    let mut dispatcher: Dispatcher<PersistentStateBackend<i32>, NoCleanup> = Dispatcher::new();
    // a value the host restored from its durable store
    dispatcher.push_backend(
        1,
        0,
        TAG,
        PersistentStateBackend { index: 0, inner: StateBackend::new(12345, None) },
        ().to_token(),
    );
    dispatcher
        .use_hook_as(1, 0, 0, TAG, PersistentStateHook::new(42), ().to_token())
        .unwrap();
    assert_eq!(get_persisted(&dispatcher, 1, 0), Some(12345));
    let (mut backend, deps) = dispatcher.get_backend(1, 0, TAG).unwrap().unwrap();
    backend.inner.set_next(43);
    dispatcher.push_backend(1, 0, TAG, backend, deps);
    assert_eq!(get_persisted(&dispatcher, 1, 0), Some(43));
}
