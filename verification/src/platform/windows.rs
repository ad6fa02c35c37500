//! Decisions of the Windows back end (console control handler plus a
//! semaphore that the handler releases once per event).
use vstd::prelude::*;

use crate::error::{Error, SystemError};

verus! {

/// The most events the semaphore counts before further releases are lost.
pub const MAX_SEM_COUNT: i32 = 255;

/// `WAIT_OBJECT_0` of `windows_sys::Win32::Foundation`, which that crate
/// defines as `0u32`: the waited-for object was signalled.
#[verifier::external_body]
fn wait_object_0() -> (r: u32)
    ensures
        r == 0,
{
    windows_sys::Win32::Foundation::WAIT_OBJECT_0
}

/// `WAIT_FAILED` of `windows_sys::Win32::Foundation`, which that crate
/// defines as `4294967295u32`: the wait itself failed.
#[verifier::external_body]
fn wait_failed() -> (r: u32)
    ensures
        r == 0xFFFF_FFFFu32,
{
    windows_sys::Win32::Foundation::WAIT_FAILED
}

/// What follows a wait on the semaphore.
#[derive(Debug, Clone, Copy, PartialEq, Eq, Structural)]
pub enum WaitOutcome {
    /// A console event arrived.
    Signalled,
    /// The wait failed: the error is the thread's last OS error.
    LastOsError,
    /// The wait failed with this error.
    Failed(Error),
}

/// The outcome of a wait, as a function of what `WaitForSingleObject` returned.
pub open spec fn spec_wait_outcome(wait_result: u32) -> WaitOutcome {
    if wait_result == 0 {
        WaitOutcome::Signalled
    } else if wait_result == 0xFFFF_FFFFu32 {
        WaitOutcome::LastOsError
    } else {
        WaitOutcome::Failed(Error::System(SystemError::UnexpectedWaitResult(wait_result)))
    }
}

/// Blocks until a Ctrl-C signal is received: the decision taken on the value
/// `WaitForSingleObject` returned for the semaphore, waited on without timeout.
pub fn block_ctrl_c(wait_result: u32) -> (r: WaitOutcome)
    ensures
        r == spec_wait_outcome(wait_result),
{
    if wait_result == wait_object_0() {
        WaitOutcome::Signalled
    } else if wait_result == wait_failed() {
        WaitOutcome::LastOsError
    } else {
        WaitOutcome::Failed(Error::System(SystemError::UnexpectedWaitResult(wait_result)))
    }
}

/// Where the registration of the console handler stands.
#[derive(Debug, Clone, Copy, PartialEq, Eq, Structural)]
pub enum ConsoleSetupStage {
    /// Waiting for the semaphore to be created.
    CreatingSemaphore,
    /// Waiting for the console control handler to be registered.
    SettingHandler,
    /// The registration is over.
    Finished,
}

/// What the embedding program observed.
#[derive(Debug, Clone, Copy, PartialEq, Eq, Structural)]
pub enum ConsoleSetupEvent {
    /// `CreateSemaphoreA` returned a handle (`true`) or null (`false`).
    SemaphoreCreated(bool),
    /// `SetConsoleCtrlHandler` succeeded (`true`) or returned `FALSE` (`false`).
    HandlerSet(bool),
}

/// What the embedding program does next.
#[derive(Debug, Clone, Copy, PartialEq, Eq, Structural)]
pub enum ConsoleSetupAction {
    /// Create the semaphore with these initial and maximum counts.
    CreateSemaphore { initial: i32, maximum: i32 },
    /// Register the console control handler.
    SetConsoleHandler,
    /// The handler is registered.
    Succeed,
    /// Take the thread's last OS error; then, when `close_semaphore`, close
    /// the semaphore and forget its handle; then report that error.
    Fail { close_semaphore: bool },
}

/// The registration of the console control handler, one observation at a time.
pub struct ConsoleSetup {
    stage: ConsoleSetupStage,
}

impl View for ConsoleSetup {
    type V = ConsoleSetupStage;

    closed spec fn view(&self) -> ConsoleSetupStage {
        self.stage
    }
}

/// Whether `event` answers the action that led to `stage`.
pub open spec fn spec_console_accepts(stage: ConsoleSetupStage, event: ConsoleSetupEvent) -> bool {
    match (stage, event) {
        (ConsoleSetupStage::CreatingSemaphore, ConsoleSetupEvent::SemaphoreCreated(_)) => true,
        (ConsoleSetupStage::SettingHandler, ConsoleSetupEvent::HandlerSet(_)) => true,
        _ => false,
    }
}

/// One step of the registration: a semaphore that could not be created
/// fails the registration; a handler that could not be registered fails it
/// after the semaphore is closed.
pub open spec fn spec_console_step(stage: ConsoleSetupStage, event: ConsoleSetupEvent) -> (
    ConsoleSetupStage,
    ConsoleSetupAction,
) {
    match (stage, event) {
        (ConsoleSetupStage::CreatingSemaphore, ConsoleSetupEvent::SemaphoreCreated(true)) => (
            ConsoleSetupStage::SettingHandler,
            ConsoleSetupAction::SetConsoleHandler,
        ),
        (ConsoleSetupStage::CreatingSemaphore, ConsoleSetupEvent::SemaphoreCreated(false)) => (
            ConsoleSetupStage::Finished,
            ConsoleSetupAction::Fail { close_semaphore: false },
        ),
        (ConsoleSetupStage::SettingHandler, ConsoleSetupEvent::HandlerSet(true)) => (
            ConsoleSetupStage::Finished,
            ConsoleSetupAction::Succeed,
        ),
        (ConsoleSetupStage::SettingHandler, ConsoleSetupEvent::HandlerSet(false)) => (
            ConsoleSetupStage::Finished,
            ConsoleSetupAction::Fail { close_semaphore: true },
        ),
        _ => (stage, ConsoleSetupAction::Succeed),
    }
}

/// Register the OS signal handler: starts the registration, whose first
/// action is to create the semaphore, empty, counting at most
/// [`MAX_SEM_COUNT`] events. The `overwrite` flag has no effect here: several
/// console handlers may coexist and are called from the last registered one.
pub fn init_os_handler(_overwrite: bool) -> (r: (ConsoleSetup, ConsoleSetupAction))
    ensures
        r.0@ == ConsoleSetupStage::CreatingSemaphore,
        r.1 == (ConsoleSetupAction::CreateSemaphore { initial: 0, maximum: MAX_SEM_COUNT }),
{
    (
        ConsoleSetup { stage: ConsoleSetupStage::CreatingSemaphore },
        ConsoleSetupAction::CreateSemaphore { initial: 0, maximum: MAX_SEM_COUNT },
    )
}

impl ConsoleSetup {
    /// Where the registration stands.
    pub fn stage(&self) -> (r: ConsoleSetupStage)
        ensures
            r == self@,
    {
        self.stage
    }

    /// Takes what the embedding program observed and returns the next action.
    pub fn step(&mut self, event: ConsoleSetupEvent) -> (r: ConsoleSetupAction)
        requires
            spec_console_accepts(old(self)@, event),
        ensures
            (final(self)@, r) == spec_console_step(old(self)@, event),
    {
        match event {
            ConsoleSetupEvent::SemaphoreCreated(created) => {
                if created {
                    self.stage = ConsoleSetupStage::SettingHandler;
                    ConsoleSetupAction::SetConsoleHandler
                } else {
                    self.stage = ConsoleSetupStage::Finished;
                    ConsoleSetupAction::Fail { close_semaphore: false }
                }
            },
            ConsoleSetupEvent::HandlerSet(set) => {
                self.stage = ConsoleSetupStage::Finished;
                if set {
                    ConsoleSetupAction::Succeed
                } else {
                    ConsoleSetupAction::Fail { close_semaphore: true }
                }
            },
        }
    }
}

/// A registration closes the semaphore exactly when it created one and then
/// failed: a semaphore that was never created is never closed, and one that
/// serves a registered handler is kept.
pub proof fn lemma_console_setup_closes_only_what_it_created(
    first: ConsoleSetupEvent,
    second: ConsoleSetupEvent,
)
    requires
        spec_console_accepts(ConsoleSetupStage::CreatingSemaphore, first),
    ensures
        spec_console_step(ConsoleSetupStage::CreatingSemaphore, first).1 matches ConsoleSetupAction::Fail {
            close_semaphore,
        } ==> !close_semaphore,
        ({
            let (s1, a1) = spec_console_step(ConsoleSetupStage::CreatingSemaphore, first);
            spec_console_accepts(s1, second) ==> {
                &&& first == ConsoleSetupEvent::SemaphoreCreated(true)
                &&& a1 == ConsoleSetupAction::SetConsoleHandler
                &&& spec_console_step(s1, second).0 == ConsoleSetupStage::Finished
                &&& (spec_console_step(s1, second).1 matches ConsoleSetupAction::Fail {
                    close_semaphore,
                } ==> close_semaphore)
            }
        }),
{
}


/// What a wait reports, for every value `WaitForSignalObject` can return:
/// a signal exactly for `WAIT_OBJECT_0`, the thread's last OS error exactly
/// for `WAIT_FAILED`, and for any other value an error carrying that value.
pub proof fn lemma_wait_outcomes(wait_result: u32)
    ensures
        spec_wait_outcome(wait_result) == WaitOutcome::Signalled <==> wait_result == 0,
        spec_wait_outcome(wait_result) == WaitOutcome::LastOsError <==> wait_result
            == 0xFFFF_FFFFu32,
        wait_result != 0 && wait_result != 0xFFFF_FFFFu32 ==> spec_wait_outcome(wait_result)
            == WaitOutcome::Failed(Error::System(SystemError::UnexpectedWaitResult(wait_result))),
{
}

/// What the registration answers to each observation: a created semaphore
/// is followed by registering the handler, a registered handler by success;
/// a semaphore that could not be created fails without closing anything,
/// and a handler that could not be registered fails after closing the
/// semaphore.
pub proof fn lemma_console_answers(stage: ConsoleSetupStage, event: ConsoleSetupEvent)
    requires
        spec_console_accepts(stage, event),
    ensures
        event == ConsoleSetupEvent::SemaphoreCreated(true) ==> spec_console_step(stage, event) == (
            ConsoleSetupStage::SettingHandler,
            ConsoleSetupAction::SetConsoleHandler,
        ),
        event == ConsoleSetupEvent::SemaphoreCreated(false) ==> spec_console_step(stage, event)
            == (ConsoleSetupStage::Finished, ConsoleSetupAction::Fail { close_semaphore: false }),
        event == ConsoleSetupEvent::HandlerSet(true) ==> spec_console_step(stage, event) == (
            ConsoleSetupStage::Finished,
            ConsoleSetupAction::Succeed,
        ),
        event == ConsoleSetupEvent::HandlerSet(false) ==> spec_console_step(stage, event) == (
            ConsoleSetupStage::Finished,
            ConsoleSetupAction::Fail { close_semaphore: true },
        ),
{
}

} // verus!
