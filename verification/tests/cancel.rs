use coro_agent::cancel::AbortController;

#[test]
fn fresh_signal_is_unset() {
    let (controller, registration) = AbortController::new();
    assert!(!controller.is_cancelled());
    assert!(!registration.is_cancelled());
}

#[test]
fn cancel_reaches_existing_and_future_registrations() {
    let (controller, first) = AbortController::new();
    let second = controller.subscribe();
    let third = first.clone();
    controller.cancel();
    assert!(controller.is_cancelled());
    assert!(first.is_cancelled());
    assert!(second.is_cancelled());
    assert!(third.is_cancelled());
    let late = controller.subscribe();
    assert!(late.is_cancelled());
}

#[test]
fn cancel_is_idempotent_and_irreversible() {
    let (controller, registration) = AbortController::new();
    controller.cancel();
    controller.cancel();
    assert!(registration.is_cancelled());
    let copy = controller.clone();
    assert!(copy.is_cancelled());
    assert!(copy.subscribe().is_cancelled());
}

#[test]
fn controllers_are_independent() {
    let (old, old_registration) = AbortController::new();
    let (new, new_registration) = AbortController::new();
    old.cancel();
    assert!(old_registration.is_cancelled());
    assert!(!new_registration.is_cancelled());
    assert!(!new.is_cancelled());
}
