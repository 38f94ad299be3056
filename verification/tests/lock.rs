use opengl3_hooks::lock::{Access, RendererLock};

#[test]
fn lock_is_held_by_one_at_a_time() {
    let lock = RendererLock::new();
    let first = lock.try_access(true);
    assert!(matches!(first, Access::Held(_)));
    assert!(matches!(lock.try_access(true), Access::Busy));
    drop(first);
    assert!(matches!(lock.try_access(true), Access::Held(_)));
}

#[test]
fn absent_renderer_is_not_locked() {
    let lock = RendererLock::new();
    assert!(matches!(lock.try_access(false), Access::Absent));
    assert!(matches!(lock.try_access(true), Access::Held(_)));
}

#[test]
fn lock_is_free_again_after_waiting_for_it() {
    let mut lock = RendererLock::new();
    let guard = lock.access();
    drop(guard);
    let guard = lock.access();
    drop(guard);
    assert!(matches!(lock.try_access(true), Access::Held(_)));
}

#[test]
fn lock_is_kept_as_long_as_the_guard() {
    let mut lock = RendererLock::new();
    std::mem::forget(lock.access());
    assert!(matches!(lock.try_access(true), Access::Busy));
}

#[test]
fn failed_attempt_is_busy() {
    assert!(matches!(Access::from_attempt(None), Access::Busy));
}
