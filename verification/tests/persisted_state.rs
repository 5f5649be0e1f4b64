use frame_hooks::cleanup::NoCleanup;
use frame_hooks::deps::Deps;
use frame_hooks::dispatcher::Dispatcher;
use frame_hooks::hook::Hook;
use frame_hooks::hook::persisted_state::{PersistedStateBackend, PersistedStateHook};
use frame_hooks::hook::state::StateBackend;

const TAG: u64 = 4;

/// What the host would find in its durable mirror of the call site: the
/// cell's current value, if the site still holds one.
fn get_persisted(
    dispatcher: &Dispatcher<PersistedStateBackend<i32>, NoCleanup>,
    id: u64,
    index: usize,
) -> Option<i32> {
    dispatcher
        .peek_backend(id, index)
        .map(|slot| *slot.backend.inner.current())
}

#[test]
fn persisted_state_test_saved_on_init() {
    let mut dispatcher: Dispatcher<PersistedStateBackend<i32>, NoCleanup> = Dispatcher::new();
    dispatcher
        .use_hook_as(1, 0, 0, TAG, PersistedStateHook::new(42), ().to_token())
        .unwrap();
    assert_eq!(get_persisted(&dispatcher, 1, 0), Some(42));
}

#[test]
fn persisted_state_test_saved_on_set_next() {
    let mut dispatcher: Dispatcher<PersistedStateBackend<i32>, NoCleanup> = Dispatcher::new();
    dispatcher
        .use_hook_as(1, 0, 0, TAG, PersistedStateHook::new(42), ().to_token())
        .unwrap();
    let (mut backend, deps) = dispatcher.get_backend(1, 0, TAG).unwrap().unwrap();
    backend.inner.set_next(43);
    dispatcher.push_backend(1, 0, TAG, backend, deps);
    assert_eq!(get_persisted(&dispatcher, 1, 0), Some(43));
}

#[test]
fn persisted_state_use_persisted_value_on_init() {
    let mut dispatcher: Dispatcher<PersistedStateBackend<i32>, NoCleanup> = Dispatcher::new();
    // a value persisted by an earlier session
    dispatcher.push_backend(
        1,
        0,
        TAG,
        PersistedStateBackend { index: 0, inner: StateBackend::new(12345, None) },
        ().to_token(),
    );
    dispatcher
        .use_hook_as(1, 0, 0, TAG, PersistedStateHook::new(42), ().to_token())
        .unwrap();
    // the persisted value wins over the default
    assert_eq!(get_persisted(&dispatcher, 1, 0), Some(12345));
    let (mut backend, deps) = dispatcher.get_backend(1, 0, TAG).unwrap().unwrap();
    backend.inner.set_next(43);
    dispatcher.push_backend(1, 0, TAG, backend, deps);
    assert_eq!(get_persisted(&dispatcher, 1, 0), Some(43));
}

#[test]
fn init_with_last_backend_updates_with_new_default_value() {
    let mut hook = PersistedStateHook::new(42);
    let prior = PersistedStateBackend { index: 0, inner: StateBackend::new(12345, None) };
    let mut backend = hook.init(0, &().to_token(), Some(prior), 0);
    Hook::hook(hook, &mut backend, 0);
    assert_eq!(*backend.inner.current(), 42);
    assert_eq!(backend.inner.previous(), Some(&12345));
}

#[test]
fn persisted_state_cleanup() {
    let mut dispatcher: Dispatcher<PersistedStateBackend<i32>, NoCleanup> = Dispatcher::new();

    dispatcher
        .use_hook_as(1, 0, 0, TAG, PersistedStateHook::new(42), ().to_token())
        .unwrap();
    assert_eq!(get_persisted(&dispatcher, 1, 0), Some(42));

    // second pass: only another widget runs; not cleaned yet
    dispatcher
        .use_hook_as(2, 0, 1, TAG, PersistedStateHook::new(0), ().to_token())
        .unwrap();
    assert_eq!(get_persisted(&dispatcher, 1, 0), Some(42));

    // third pass: the unreferenced value was freed
    dispatcher
        .use_hook_as(2, 0, 2, TAG, PersistedStateHook::new(0), ().to_token())
        .unwrap();
    assert!(get_persisted(&dispatcher, 1, 0).is_none());
}
