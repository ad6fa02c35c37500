use std::cell::Cell;

use ctrlc2::async_ctrlc::{HandlerAction, PollAction, PollEvent, PollStage};
use ctrlc2::{set_handler, try_set_handler, AsyncCtrlC, Error, HandlerRegistry, SystemError};

#[test]
fn new_registry_is_empty() {
    let registry = HandlerRegistry::new();
    assert!(!registry.handler_set());
    assert!(!registry.async_instance());
}

#[test]
fn set_handler_passes_overwrite_and_records_success() {
    let mut registry = HandlerRegistry::new();
    let seen = Cell::new(None);
    let r = set_handler(&mut registry, |overwrite| {
        seen.set(Some(overwrite));
        Ok::<u32, Error>(7)
    });
    assert_eq!(r, Ok(7));
    assert_eq!(seen.get(), Some(true));
    assert!(registry.handler_set());
}

#[test]
fn try_set_handler_asks_not_to_overwrite() {
    let mut registry = HandlerRegistry::new();
    let seen = Cell::new(None);
    let r = try_set_handler(&mut registry, |overwrite| {
        seen.set(Some(overwrite));
        Ok::<(), Error>(())
    });
    assert_eq!(r, Ok(()));
    assert_eq!(seen.get(), Some(false));
    assert!(registry.handler_set());
}

#[test]
fn second_registration_is_refused_without_os_work() {
    let mut registry = HandlerRegistry::new();
    assert_eq!(set_handler(&mut registry, |_| Ok::<(), Error>(())), Ok(()));
    let called = Cell::new(false);
    let r = set_handler(&mut registry, |_| {
        called.set(true);
        Ok::<(), Error>(())
    });
    assert_eq!(r, Err(Error::MultipleHandlers));
    let r = try_set_handler(&mut registry, |_| {
        called.set(true);
        Ok::<(), Error>(())
    });
    assert_eq!(r, Err(Error::MultipleHandlers));
    assert!(!called.get());
    assert!(registry.handler_set());
}

#[test]
fn failed_installation_is_not_recorded() {
    let mut registry = HandlerRegistry::new();
    let err = Error::System(SystemError::Os(22));
    let r = set_handler(&mut registry, |_| Err::<(), Error>(err));
    assert_eq!(r, Err(err));
    assert!(!registry.handler_set());
    let r = try_set_handler(&mut registry, |_| Ok::<u8, Error>(1));
    assert_eq!(r, Ok(1));
    assert!(registry.handler_set());
}

#[test]
fn handler_exists_error_from_installation_is_reported() {
    let mut registry = HandlerRegistry::new();
    let err = Error::System(SystemError::HandlerExists);
    assert_eq!(try_set_handler(&mut registry, |_| Err::<(), Error>(err)), Err(err));
    assert!(!registry.handler_set());
}

#[test]
fn async_new_claims_instance_and_registers() {
    let mut registry = HandlerRegistry::new();
    let seen = Cell::new(None);
    let f = AsyncCtrlC::new(&mut registry, |overwrite| {
        seen.set(Some(overwrite));
        Ok::<(), Error>(())
    });
    let f = f.expect("first instance");
    assert_eq!(f.stage(), PollStage::Idle);
    assert_eq!(seen.get(), Some(true));
    assert!(registry.handler_set());
    assert!(registry.async_instance());
}

#[test]
fn second_async_instance_is_refused() {
    let mut registry = HandlerRegistry::new();
    let _first = AsyncCtrlC::new(&mut registry, |_| Ok::<(), Error>(())).expect("first");
    let called = Cell::new(false);
    let second = AsyncCtrlC::new(&mut registry, |_| {
        called.set(true);
        Ok::<(), Error>(())
    });
    assert_eq!(second.err(), Some(Error::MultipleHandlers));
    assert!(!called.get());
}

#[test]
fn async_instance_after_drop_is_still_refused_by_the_handler() {
    let mut registry = HandlerRegistry::new();
    let first = AsyncCtrlC::new(&mut registry, |_| Ok::<(), Error>(())).expect("first");
    first.release(&mut registry);
    assert!(!registry.async_instance());
    assert!(registry.handler_set());
    let second = AsyncCtrlC::new(&mut registry, |_| Ok::<(), Error>(()));
    assert_eq!(second.err(), Some(Error::MultipleHandlers));
    // The failed call keeps its claim on the instance slot.
    assert!(registry.async_instance());
}

#[test]
fn async_new_after_set_handler_is_refused() {
    let mut registry = HandlerRegistry::new();
    assert_eq!(set_handler(&mut registry, |_| Ok::<(), Error>(())), Ok(()));
    let r = AsyncCtrlC::new(&mut registry, |_| Ok::<(), Error>(()));
    assert_eq!(r.err(), Some(Error::MultipleHandlers));
    assert!(registry.async_instance());
}

#[test]
fn async_new_with_failed_installation_keeps_the_claim() {
    let mut registry = HandlerRegistry::new();
    let err = Error::System(SystemError::Os(12));
    let r = AsyncCtrlC::new(&mut registry, |_| Err::<(), Error>(err));
    assert_eq!(r.err(), Some(err));
    assert!(registry.async_instance());
    assert!(!registry.handler_set());
    let called = Cell::new(false);
    let r = AsyncCtrlC::new(&mut registry, |_| {
        called.set(true);
        Ok::<(), Error>(())
    });
    assert_eq!(r.err(), Some(Error::MultipleHandlers));
    assert!(!called.get());
}

fn fresh_future() -> AsyncCtrlC {
    let mut registry = HandlerRegistry::new();
    AsyncCtrlC::new(&mut registry, |_| Ok::<(), Error>(())).expect("instance")
}

#[test]
fn poll_ready_when_flag_already_set() {
    let mut f = fresh_future();
    assert_eq!(f.begin_poll(), PollAction::LoadActive);
    assert_eq!(f.stage(), PollStage::FirstCheck);
    assert_eq!(f.poll_event(PollEvent::ActiveLoaded(true)), PollAction::Ready);
    assert_eq!(f.stage(), PollStage::Idle);
}

#[test]
fn poll_stores_waker_then_checks_again() {
    let mut f = fresh_future();
    f.begin_poll();
    assert_eq!(f.poll_event(PollEvent::ActiveLoaded(false)), PollAction::StoreWaker);
    assert_eq!(f.stage(), PollStage::StoringWaker);
    assert_eq!(f.poll_event(PollEvent::WakerStored(true)), PollAction::LoadActive);
    assert_eq!(f.stage(), PollStage::SecondCheck);
    assert_eq!(f.poll_event(PollEvent::ActiveLoaded(false)), PollAction::Pending);
    assert_eq!(f.stage(), PollStage::Idle);
}

#[test]
fn poll_catches_signal_that_arrives_while_storing_waker() {
    let mut f = fresh_future();
    f.begin_poll();
    f.poll_event(PollEvent::ActiveLoaded(false));
    f.poll_event(PollEvent::WakerStored(true));
    assert_eq!(f.poll_event(PollEvent::ActiveLoaded(true)), PollAction::Ready);
}

#[test]
fn poll_fails_on_poisoned_waker_lock() {
    let mut f = fresh_future();
    f.begin_poll();
    f.poll_event(PollEvent::ActiveLoaded(false));
    assert_eq!(
        f.poll_event(PollEvent::WakerStored(false)),
        PollAction::Failed(Error::System(SystemError::WakerLockPoisoned))
    );
    assert_eq!(f.stage(), PollStage::Idle);
}

#[test]
fn handler_result_completes_future_only_when_true() {
    assert_eq!(AsyncCtrlC::on_handler_result(true), HandlerAction::SetActive);
    assert_eq!(AsyncCtrlC::on_handler_result(false), HandlerAction::KeepWaiting);
}

#[test]
fn completion_sets_flag_before_waking() {
    let first = AsyncCtrlC::on_handler_result(true);
    let second = AsyncCtrlC::after_handler_action(first);
    assert_eq!(second, HandlerAction::WakeStoredWaker);
    assert_eq!(AsyncCtrlC::after_handler_action(second), HandlerAction::Done);
    assert_eq!(AsyncCtrlC::after_handler_action(HandlerAction::Done), HandlerAction::Done);
    assert_eq!(
        AsyncCtrlC::after_handler_action(HandlerAction::KeepWaiting),
        HandlerAction::KeepWaiting
    );
}
