use run_down::{RundownError, RundownGuard, RundownRef};

fn is_droppable<T: Drop>() {}

#[test]
fn test_rundown_guard_implements_drop() {
    // Test via compilation.
    is_droppable::<RundownGuard>();

    // Verify with needs_drop as well.
    assert!(std::mem::needs_drop::<RundownGuard>());
}

#[test]
fn test_acquisition_when_not_rundown() {
    let rundown = RundownRef::new();

    let result = rundown.try_acquire();
    assert!(result.is_ok());

    let _guard: RundownGuard = result.unwrap();
}

#[test]
fn test_acquisition_when_rundown() {
    let rundown_ref = RundownRef::new();

    // Rundown the object.
    rundown_ref.wait_for_rundown();

    let result = rundown_ref.try_acquire();
    assert_eq!(result.err(), Some(RundownError::RundownInProgress));
}

#[test]
fn test_multiple_successive_waits() {
    // Setup and completely run-down the object.
    let rundown_ref = RundownRef::new();

    for _ in 0..10 {
        rundown_ref.wait_for_rundown();
    }
}

#[test]
fn test_re_init() {
    // Setup and completely run-down the object.
    let rundown_ref = RundownRef::new();
    rundown_ref.wait_for_rundown();

    // Rundown on the object should succeed again.
    assert_eq!(rundown_ref.re_init(), Ok(()));
    rundown_ref.wait_for_rundown();
}

#[test]
fn re_init_without_rundown_is_refused() {
    let rundown_ref = RundownRef::new();
    assert_eq!(rundown_ref.re_init(), Err(RundownError::RundownIncomplete));
    // Nothing changed: acquisition still works.
    assert!(rundown_ref.try_acquire().is_ok());
}

#[test]
fn acquire_release_then_wait_returns() {
    let rundown_ref = RundownRef::new();
    let guard = rundown_ref.try_acquire();
    assert!(guard.is_ok());
    drop(guard);
    rundown_ref.wait_for_rundown();
    assert_eq!(rundown_ref.try_acquire().err(), Some(RundownError::RundownInProgress));
}

#[test]
fn many_guards_then_rundown() {
    let rundown_ref = RundownRef::new();
    let mut guards = Vec::new();
    for _ in 0..50 {
        guards.push(rundown_ref.try_acquire().unwrap());
    }
    // Every guard is released exactly once, so the drain completes at once.
    drop(guards);
    rundown_ref.wait_for_rundown();
    assert_eq!(rundown_ref.re_init(), Ok(()));
}

#[test]
fn re_init_then_acquire() {
    let rundown_ref = RundownRef::new();
    rundown_ref.wait_for_rundown();
    assert!(rundown_ref.try_acquire().is_err());
    assert_eq!(rundown_ref.re_init(), Ok(()));
    assert!(rundown_ref.try_acquire().is_ok());
}

#[test]
fn re_init_with_outstanding_reference_is_refused() {
    let rundown_ref = RundownRef::new();
    let guard = rundown_ref.try_acquire().unwrap();
    assert_eq!(rundown_ref.re_init(), Err(RundownError::RundownIncomplete));
    drop(guard);
    // Released, but run-down never started.
    assert_eq!(rundown_ref.re_init(), Err(RundownError::RundownIncomplete));
    rundown_ref.wait_for_rundown();
    assert_eq!(rundown_ref.re_init(), Ok(()));
}

#[test]
fn epochs_repeat() {
    let rundown_ref = RundownRef::new();
    for _ in 0..5 {
        let guard = rundown_ref.try_acquire().unwrap();
        drop(guard);
        rundown_ref.wait_for_rundown();
        rundown_ref.wait_for_rundown();
        assert_eq!(rundown_ref.try_acquire().err(), Some(RundownError::RundownInProgress));
        assert_eq!(rundown_ref.re_init(), Ok(()));
    }
}
