//! The loop of the dedicated signal-handling thread.
//!
//! The thread blocks until a signal arrives, then calls the user's handler;
//! when the handler returns `true` (the user agreed to terminate) the loop
//! ends, otherwise it blocks again. A failure while blocking is critical and
//! stops the thread. [`SignalWatcher`] decides each step; the embedding
//! program blocks, calls the handler and reports what happened.
use vstd::prelude::*;

use crate::error::{Error, SystemError};

verus! {

/// Where the watcher stands.
#[derive(Debug, Clone, Copy, PartialEq, Eq, Structural)]
pub enum WatchStage {
    /// Blocked until a signal arrives.
    Waiting,
    /// Running the user's handler.
    Handling,
    /// The handler returned `true`: the thread is done.
    Stopped,
    /// Blocking failed: the thread is done.
    Failed,
}

/// What the embedding program observed.
#[derive(Debug, Clone, Copy, PartialEq, Eq, Structural)]
pub enum WatchEvent {
    /// A signal arrived.
    Woken,
    /// Blocking for a signal failed with this error.
    WaitFailed(Error),
    /// The user's handler returned this value.
    HandlerReturned(bool),
}

/// What the embedding program does next.
#[derive(Debug, Clone, Copy, PartialEq, Eq, Structural)]
pub enum WatchAction {
    /// Block until a signal arrives.
    WaitForSignal,
    /// Call the user's handler.
    CallHandler,
    /// Leave the loop: the thread ends normally.
    Exit,
    /// A critical system error occurred while waiting: the thread stops with it.
    Abort(Error),
}

/// The decisions of the signal-handling thread.
pub struct SignalWatcher {
    stage: WatchStage,
}

impl View for SignalWatcher {
    type V = WatchStage;

    closed spec fn view(&self) -> WatchStage {
        self.stage
    }
}

/// Whether `event` answers the action that led to `stage`.
pub open spec fn spec_watch_accepts(stage: WatchStage, event: WatchEvent) -> bool {
    match (stage, event) {
        (WatchStage::Waiting, WatchEvent::Woken) => true,
        (WatchStage::Waiting, WatchEvent::WaitFailed(_)) => true,
        (WatchStage::Handling, WatchEvent::HandlerReturned(_)) => true,
        _ => false,
    }
}

/// One step of the watcher: the next stage and the action to perform.
pub open spec fn spec_watch_step(stage: WatchStage, event: WatchEvent) -> (WatchStage, WatchAction) {
    match (stage, event) {
        (WatchStage::Waiting, WatchEvent::Woken) => (WatchStage::Handling, WatchAction::CallHandler),
        (WatchStage::Waiting, WatchEvent::WaitFailed(e)) => (
            WatchStage::Failed,
            WatchAction::Abort(e),
        ),
        (WatchStage::Handling, WatchEvent::HandlerReturned(true)) => (
            WatchStage::Stopped,
            WatchAction::Exit,
        ),
        (WatchStage::Handling, WatchEvent::HandlerReturned(false)) => (
            WatchStage::Waiting,
            WatchAction::WaitForSignal,
        ),
        _ => (stage, WatchAction::Exit),
    }
}

impl SignalWatcher {
    /// A watcher about to block for the first signal.
    pub fn new() -> (r: (SignalWatcher, WatchAction))
        ensures
            r.0@ == WatchStage::Waiting,
            r.1 == WatchAction::WaitForSignal,
    {
        (SignalWatcher { stage: WatchStage::Waiting }, WatchAction::WaitForSignal)
    }

    /// Where the watcher stands.
    pub fn stage(&self) -> (r: WatchStage)
        ensures
            r == self@,
    {
        self.stage
    }

    /// Takes what the embedding program observed and returns the next action.
    pub fn step(&mut self, event: WatchEvent) -> (r: WatchAction)
        requires
            spec_watch_accepts(old(self)@, event),
        ensures
            (final(self)@, r) == spec_watch_step(old(self)@, event),
    {
        match event {
            WatchEvent::Woken => {
                self.stage = WatchStage::Handling;
                WatchAction::CallHandler
            },
            WatchEvent::WaitFailed(e) => {
                self.stage = WatchStage::Failed;
                WatchAction::Abort(e)
            },
            WatchEvent::HandlerReturned(handled) => {
                if handled {
                    self.stage = WatchStage::Stopped;
                    WatchAction::Exit
                } else {
                    self.stage = WatchStage::Waiting;
                    WatchAction::WaitForSignal
                }
            },
        }
    }
}

/// The stage reached, and the actions returned, when a watcher in `stage` is
/// given `events` one after the other.
pub open spec fn spec_watch_run(stage: WatchStage, events: Seq<WatchEvent>) -> (WatchStage, Seq<WatchAction>)
    decreases events.len(),
{
    if events.len() == 0 {
        (stage, seq![])
    } else {
        let prev = spec_watch_run(stage, events.drop_last());
        let next = spec_watch_step(prev.0, events.last());
        (next.0, prev.1.push(next.1))
    }
}

/// Every event of `events` answers the action that preceded it.
pub open spec fn spec_watch_trace(stage: WatchStage, events: Seq<WatchEvent>) -> bool
    decreases events.len(),
{
    events.len() == 0 || (spec_watch_trace(stage, events.drop_last()) && spec_watch_accepts(
        spec_watch_run(stage, events.drop_last()).0,
        events.last(),
    ))
}

/// How many signals arrived during `events`.
pub open spec fn spec_wakeups(events: Seq<WatchEvent>) -> nat
    decreases events.len(),
{
    if events.len() == 0 {
        0
    } else {
        spec_wakeups(events.drop_last()) + if events.last() is Woken {
            1nat
        } else {
            0nat
        }
    }
}

/// How many times the handler was to be called in `actions`.
pub open spec fn spec_handler_calls(actions: Seq<WatchAction>) -> nat
    decreases actions.len(),
{
    if actions.len() == 0 {
        0
    } else {
        spec_handler_calls(actions.drop_last()) + if actions.last() is CallHandler {
            1nat
        } else {
            0nat
        }
    }
}

proof fn lemma_watch_run_inv(events: Seq<WatchEvent>)
    requires
        spec_watch_trace(WatchStage::Waiting, events),
    ensures
        ({
            let (stage, acts) = spec_watch_run(WatchStage::Waiting, events);
            &&& acts.len() == events.len()
            &&& spec_handler_calls(acts) == spec_wakeups(events)
            &&& forall|k: int|
                0 <= k < events.len() - 1 ==> #[trigger] events[k] != WatchEvent::HandlerReturned(
                    true,
                )
            &&& stage == WatchStage::Stopped <==> (events.len() > 0 && events.last()
                == WatchEvent::HandlerReturned(true))
            &&& stage == WatchStage::Stopped ==> acts.last() == WatchAction::Exit
            &&& stage == WatchStage::Failed ==> events.len() > 0 && events.last() is WaitFailed
                && acts.last() == WatchAction::Abort(events.last()->WaitFailed_0)
            &&& (stage == WatchStage::Stopped || stage == WatchStage::Failed) || events.len() == 0
                || events.last() != WatchEvent::HandlerReturned(true)
        }),
    decreases events.len(),
{
    if events.len() > 0 {
        let prefix = events.drop_last();
        lemma_watch_run_inv(prefix);
        let (ps, pacts) = spec_watch_run(WatchStage::Waiting, prefix);
        let e = events.last();
        let (stage, acts) = spec_watch_run(WatchStage::Waiting, events);
        assert(acts.drop_last() =~= pacts);
        assert(acts.last() == spec_watch_step(ps, e).1);
        assert(spec_handler_calls(acts) == spec_handler_calls(pacts) + if acts.last() is CallHandler {
            1nat
        } else {
            0nat
        });
        assert(spec_wakeups(events) == spec_wakeups(prefix) + if e is Woken {
            1nat
        } else {
            0nat
        });
        assert forall|k: int| 0 <= k < events.len() - 1 implies #[trigger] events[k]
            != WatchEvent::HandlerReturned(true) by {
            assert(events[k] == prefix[k]);
            if k == prefix.len() - 1 {
                assert(prefix.last() == prefix[k]);
            }
        }
    }
}

/// The user's handler is called once for every signal that arrives, and the
/// thread ends normally exactly when the handler returns `true`: as long as
/// it returns `false` the thread keeps waiting.
pub proof fn lemma_handler_runs_once_per_signal(events: Seq<WatchEvent>)
    requires
        spec_watch_trace(WatchStage::Waiting, events),
    ensures
        ({
            let (stage, acts) = spec_watch_run(WatchStage::Waiting, events);
            &&& spec_handler_calls(acts) == spec_wakeups(events)
            &&& forall|k: int|
                0 <= k < events.len() - 1 ==> #[trigger] events[k] != WatchEvent::HandlerReturned(
                    true,
                )
            &&& stage == WatchStage::Stopped <==> (events.len() > 0 && events.last()
                == WatchEvent::HandlerReturned(true))
            &&& stage == WatchStage::Stopped ==> acts.last() == WatchAction::Exit
        }),
{
    lemma_watch_run_inv(events);
}

/// A failure while blocking stops the thread with exactly that error, and
/// nothing follows it.
pub proof fn lemma_wait_failure_is_final(events: Seq<WatchEvent>, e: Error)
    requires
        spec_watch_trace(WatchStage::Waiting, events),
        events.len() > 0,
        events.last() == WatchEvent::WaitFailed(e),
    ensures
        spec_watch_run(WatchStage::Waiting, events).1.last() == WatchAction::Abort(e),
        forall|next: WatchEvent|
            !spec_watch_accepts(#[trigger] spec_watch_run(WatchStage::Waiting, events).0, next),
{
    lemma_watch_run_inv(events);
    let prefix = events.drop_last();
    let ps = spec_watch_run(WatchStage::Waiting, prefix).0;
    assert(spec_watch_accepts(ps, events.last()));
}

/// Where the start of the signal-handling machinery stands.
#[derive(Debug, Clone, Copy, PartialEq, Eq, Structural)]
pub enum StartStage {
    /// Waiting for the OS handler to be installed.
    InstallingOsHandler,
    /// Waiting for the watcher thread to be spawned.
    SpawningWatcher,
    /// The start is over.
    Finished,
}

/// What the embedding program observed.
#[derive(Debug, Clone, Copy, PartialEq, Eq, Structural)]
pub enum StartEvent {
    /// The OS handler is installed.
    OsHandlerInstalled,
    /// Installing the OS handler failed with this error.
    OsHandlerFailed(Error),
    /// The watcher thread is running.
    WatcherSpawned,
    /// Spawning the watcher thread failed with this OS error code.
    SpawnFailed(i32),
}

/// What the embedding program does next.
#[derive(Debug, Clone, Copy, PartialEq, Eq, Structural)]
pub enum StartAction {
    /// Install the OS handler, overwriting other handlers exactly when `overwrite`.
    InstallOsHandler { overwrite: bool },
    /// Spawn the watcher thread, named as [`watcher_thread_name`] says, to run
    /// a [`SignalWatcher`] with the user's handler.
    SpawnWatcher,
    /// Return the watcher thread's handle.
    Succeed,
    /// Report this error.
    Fail(Error),
}

/// The start of the signal-handling machinery, one observation at a time.
pub struct HandlerStart {
    stage: StartStage,
}

impl View for HandlerStart {
    type V = StartStage;

    closed spec fn view(&self) -> StartStage {
        self.stage
    }
}

/// Whether `event` answers the action that led to `stage`.
pub open spec fn spec_start_accepts(stage: StartStage, event: StartEvent) -> bool {
    match (stage, event) {
        (StartStage::InstallingOsHandler, StartEvent::OsHandlerInstalled) => true,
        (StartStage::InstallingOsHandler, StartEvent::OsHandlerFailed(_)) => true,
        (StartStage::SpawningWatcher, StartEvent::WatcherSpawned) => true,
        (StartStage::SpawningWatcher, StartEvent::SpawnFailed(_)) => true,
        _ => false,
    }
}

/// One step of the start: the thread is spawned only once the OS handler is
/// installed, and any failure ends the start with its error.
pub open spec fn spec_start_step(stage: StartStage, event: StartEvent) -> (StartStage, StartAction) {
    match (stage, event) {
        (StartStage::InstallingOsHandler, StartEvent::OsHandlerInstalled) => (
            StartStage::SpawningWatcher,
            StartAction::SpawnWatcher,
        ),
        (StartStage::InstallingOsHandler, StartEvent::OsHandlerFailed(e)) => (
            StartStage::Finished,
            StartAction::Fail(e),
        ),
        (StartStage::SpawningWatcher, StartEvent::WatcherSpawned) => (
            StartStage::Finished,
            StartAction::Succeed,
        ),
        (StartStage::SpawningWatcher, StartEvent::SpawnFailed(code)) => (
            StartStage::Finished,
            StartAction::Fail(Error::System(SystemError::Os(code))),
        ),
        _ => (stage, StartAction::Succeed),
    }
}

/// The name of the watcher thread.
pub fn watcher_thread_name() -> (r: &'static str)
    ensures
        r@ == "ctrl-c"@,
{
    "ctrl-c"
}

/// Starts the signal-handling machinery for a registration: the first action
/// installs the OS handler with the given `overwrite` flag.
pub fn set_handler_inner(overwrite: bool) -> (r: (HandlerStart, StartAction))
    ensures
        r.0@ == StartStage::InstallingOsHandler,
        r.1 == (StartAction::InstallOsHandler { overwrite }),
{
    (HandlerStart { stage: StartStage::InstallingOsHandler }, StartAction::InstallOsHandler { overwrite })
}

impl HandlerStart {
    /// Where the start stands.
    pub fn stage(&self) -> (r: StartStage)
        ensures
            r == self@,
    {
        self.stage
    }

    /// Takes what the embedding program observed and returns the next action.
    pub fn step(&mut self, event: StartEvent) -> (r: StartAction)
        requires
            spec_start_accepts(old(self)@, event),
        ensures
            (final(self)@, r) == spec_start_step(old(self)@, event),
    {
        match event {
            StartEvent::OsHandlerInstalled => {
                self.stage = StartStage::SpawningWatcher;
                StartAction::SpawnWatcher
            },
            StartEvent::OsHandlerFailed(e) => {
                self.stage = StartStage::Finished;
                StartAction::Fail(e)
            },
            StartEvent::WatcherSpawned => {
                self.stage = StartStage::Finished;
                StartAction::Succeed
            },
            StartEvent::SpawnFailed(code) => {
                self.stage = StartStage::Finished;
                StartAction::Fail(Error::System(SystemError::Os(code)))
            },
        }
    }
}

/// The watcher thread is spawned only after the OS handler was installed, a
/// failed installation starts no thread and is reported as it failed, and
/// the start succeeds only when both the installation and the spawn did.
pub proof fn lemma_watcher_spawned_only_after_install(first: StartEvent, second: StartEvent)
    requires
        spec_start_accepts(StartStage::InstallingOsHandler, first),
    ensures
        spec_start_step(StartStage::InstallingOsHandler, first).1 == StartAction::SpawnWatcher
            <==> first == StartEvent::OsHandlerInstalled,
        first matches StartEvent::OsHandlerFailed(e) ==> spec_start_step(
            StartStage::InstallingOsHandler,
            first,
        ) == (StartStage::Finished, StartAction::Fail(e)),
        ({
            let (s1, _) = spec_start_step(StartStage::InstallingOsHandler, first);
            spec_start_accepts(s1, second) ==> {
                &&& first == StartEvent::OsHandlerInstalled
                &&& spec_start_step(s1, second).0 == StartStage::Finished
                &&& spec_start_step(s1, second).1 == StartAction::Succeed <==> second
                    == StartEvent::WatcherSpawned
            }
        }),
{
}


/// What the watcher answers to each observation, whatever stage accepted it:
/// a signal calls the handler; a handler that accepted ends the loop; one
/// that declined goes back to waiting; a failed wait aborts with its error.
pub proof fn lemma_watcher_answers(stage: WatchStage, event: WatchEvent)
    requires
        spec_watch_accepts(stage, event),
    ensures
        event == WatchEvent::Woken ==> spec_watch_step(stage, event) == (
            WatchStage::Handling,
            WatchAction::CallHandler,
        ),
        event == WatchEvent::HandlerReturned(true) ==> spec_watch_step(stage, event) == (
            WatchStage::Stopped,
            WatchAction::Exit,
        ),
        event == WatchEvent::HandlerReturned(false) ==> spec_watch_step(stage, event) == (
            WatchStage::Waiting,
            WatchAction::WaitForSignal,
        ),
        event matches WatchEvent::WaitFailed(e) ==> spec_watch_step(stage, event) == (
            WatchStage::Failed,
            WatchAction::Abort(e),
        ),
{
}

/// What the start answers to each observation: an installed OS handler is
/// followed by spawning the watcher; a spawned watcher by success; a failed
/// installation by its own error; a failed spawn by the OS error it gave.
pub proof fn lemma_start_answers(stage: StartStage, event: StartEvent)
    requires
        spec_start_accepts(stage, event),
    ensures
        event == StartEvent::OsHandlerInstalled ==> spec_start_step(stage, event) == (
            StartStage::SpawningWatcher,
            StartAction::SpawnWatcher,
        ),
        event == StartEvent::WatcherSpawned ==> spec_start_step(stage, event) == (
            StartStage::Finished,
            StartAction::Succeed,
        ),
        event matches StartEvent::OsHandlerFailed(e) ==> spec_start_step(stage, event) == (
            StartStage::Finished,
            StartAction::Fail(e),
        ),
        event matches StartEvent::SpawnFailed(code) ==> spec_start_step(stage, event) == (
            StartStage::Finished,
            StartAction::Fail(Error::System(SystemError::Os(code))),
        ),
{
}

} // verus!
