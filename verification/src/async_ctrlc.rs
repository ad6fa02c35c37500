//! The decisions behind a future that completes on Ctrl-C.
//!
//! The future shares two cells with the watcher thread: an `active` flag and
//! a slot for the task's waker. Polling loads the flag; when it is not set,
//! the waker is stored and the flag is loaded again, so that a signal that
//! arrives while the waker is being stored is not missed. [`AsyncCtrlC`]
//! drives one poll through these steps: the embedding program performs each
//! requested action and reports what it observed.
use vstd::prelude::*;

use crate::error::{Error, SystemError};
use crate::registry::{set_handler, spec_claim_instance, spec_release_instance, HandlerRegistry};

verus! {

/// Where a poll of an [`AsyncCtrlC`] stands.
#[derive(Debug, Clone, Copy, PartialEq, Eq, Structural)]
pub enum PollStage {
    /// No poll in progress.
    Idle,
    /// Waiting for the first load of the `active` flag.
    FirstCheck,
    /// Waiting for the waker to be stored.
    StoringWaker,
    /// Waiting for the load of the `active` flag that follows the store.
    SecondCheck,
}

/// What the embedding program observed when it performed the requested action.
#[derive(Debug, Clone, Copy, PartialEq, Eq, Structural)]
pub enum PollEvent {
    /// The `active` flag was loaded and held this value.
    ActiveLoaded(bool),
    /// Storing the waker succeeded (`true`) or found its lock poisoned (`false`).
    WakerStored(bool),
}

/// What the embedding program does next in a poll.
#[derive(Debug, Clone, Copy, PartialEq, Eq, Structural)]
pub enum PollAction {
    /// Load the `active` flag and report it.
    LoadActive,
    /// Store a clone of the task's waker in the shared slot and report success.
    StoreWaker,
    /// Return `Poll::Ready(Ok(()))`: the signal was received.
    Ready,
    /// Return `Poll::Ready` with this error.
    Failed(Error),
    /// Return `Poll::Pending`.
    Pending,
}

/// What the watcher does, step by step, once the user's handler returned.
#[derive(Debug, Clone, Copy, PartialEq, Eq, Structural)]
pub enum HandlerAction {
    /// The handler did not accept the signal: keep watching.
    KeepWaiting,
    /// Store `true` in the shared `active` flag.
    SetActive,
    /// Take the waker stored in the shared slot, if there is one, and wake it.
    WakeStoredWaker,
    /// The future is completed: stop watching.
    Done,
}

/// The first action after the handler returned `handled`.
pub open spec fn spec_handler_start(handled: bool) -> HandlerAction {
    if handled {
        HandlerAction::SetActive
    } else {
        HandlerAction::KeepWaiting
    }
}

/// The action that follows `done`: the flag is set first, and only then is
/// the stored waker woken.
pub open spec fn spec_handler_next(done: HandlerAction) -> HandlerAction {
    match done {
        HandlerAction::SetActive => HandlerAction::WakeStoredWaker,
        HandlerAction::WakeStoredWaker => HandlerAction::Done,
        other => other,
    }
}

/// A future which is fulfilled when the program receives the Ctrl+C signal:
/// the library's side of it, which decides each step of a poll.
pub struct AsyncCtrlC {
    stage: PollStage,
}

impl View for AsyncCtrlC {
    type V = PollStage;

    closed spec fn view(&self) -> PollStage {
        self.stage
    }
}

/// Whether `event` answers the action that led to `stage`.
pub open spec fn spec_poll_accepts(stage: PollStage, event: PollEvent) -> bool {
    match (stage, event) {
        (PollStage::FirstCheck, PollEvent::ActiveLoaded(_)) => true,
        (PollStage::StoringWaker, PollEvent::WakerStored(_)) => true,
        (PollStage::SecondCheck, PollEvent::ActiveLoaded(_)) => true,
        _ => false,
    }
}

/// One step of a poll: the next stage and the action to perform.
pub open spec fn spec_poll_step(stage: PollStage, event: PollEvent) -> (PollStage, PollAction) {
    match (stage, event) {
        (PollStage::FirstCheck, PollEvent::ActiveLoaded(true)) => (
            PollStage::Idle,
            PollAction::Ready,
        ),
        (PollStage::FirstCheck, PollEvent::ActiveLoaded(false)) => (
            PollStage::StoringWaker,
            PollAction::StoreWaker,
        ),
        (PollStage::StoringWaker, PollEvent::WakerStored(true)) => (
            PollStage::SecondCheck,
            PollAction::LoadActive,
        ),
        (PollStage::StoringWaker, PollEvent::WakerStored(false)) => (
            PollStage::Idle,
            PollAction::Failed(Error::System(SystemError::WakerLockPoisoned)),
        ),
        (PollStage::SecondCheck, PollEvent::ActiveLoaded(true)) => (
            PollStage::Idle,
            PollAction::Ready,
        ),
        (PollStage::SecondCheck, PollEvent::ActiveLoaded(false)) => (
            PollStage::Idle,
            PollAction::Pending,
        ),
        _ => (stage, PollAction::Pending),
    }
}

impl AsyncCtrlC {
    /// Creates a new `AsyncCtrlC` future.
    ///
    /// There should be at most one `AsyncCtrlC` instance in the whole
    /// program: the call fails with [`Error::MultipleHandlers`] while one is
    /// claimed. Otherwise the instance slot is claimed (and stays claimed even
    /// if what follows fails), and the handler is registered as by
    /// [`set_handler`]: `install(true)` installs the OS handler and starts the
    /// watcher, whose handler reports through [`AsyncCtrlC::on_handler_result`].
    pub fn new<H, F: FnOnce(bool) -> Result<H, Error>>(
        registry: &mut HandlerRegistry,
        install: F,
    ) -> (r: Result<AsyncCtrlC, Error>)
        requires
            !old(registry)@.async_instance && !old(registry)@.handler_set ==> install.requires(
                (true,),
            ),
        ensures
            final(registry)@ == spec_claim_instance(old(registry)@, r is Ok).0,
            old(registry)@.async_instance || old(registry)@.handler_set ==> r == Err::<
                AsyncCtrlC,
                Error,
            >(Error::MultipleHandlers),
            !old(registry)@.async_instance && !old(registry)@.handler_set ==> exists|
                h: Result<H, Error>,
            |
                #![trigger install.ensures((true,), h)]
                install.ensures((true,), h) && (r is Ok <==> h is Ok) && (h matches Err(e)
                    ==> r == Err::<AsyncCtrlC, Error>(e)),
            r matches Ok(f) ==> f@ == PollStage::Idle,
    {
        match registry.claim_instance() {
            Err(e) => Err(e),
            Ok(()) => {
                match set_handler(registry, install) {
                    Ok(_handle) => Ok(AsyncCtrlC { stage: PollStage::Idle }),
                    Err(e) => Err(e),
                }
            },
        }
    }

    /// The current stage of the poll in progress.
    pub fn stage(&self) -> (r: PollStage)
        ensures
            r == self@,
    {
        self.stage
    }

    /// Starts a poll: the first action is always to load the `active` flag.
    pub fn begin_poll(&mut self) -> (r: PollAction)
        ensures
            final(self)@ == PollStage::FirstCheck,
            r == PollAction::LoadActive,
    {
        self.stage = PollStage::FirstCheck;
        PollAction::LoadActive
    }

    /// Takes what the embedding program observed and returns the next action:
    /// ready as soon as the flag is seen set; otherwise the waker is stored
    /// and the flag checked once more before the poll is left pending.
    pub fn poll_event(&mut self, event: PollEvent) -> (r: PollAction)
        requires
            spec_poll_accepts(old(self)@, event),
        ensures
            (final(self)@, r) == spec_poll_step(old(self)@, event),
    {
        match (self.stage, event) {
            (PollStage::FirstCheck, PollEvent::ActiveLoaded(active)) => {
                if active {
                    self.stage = PollStage::Idle;
                    PollAction::Ready
                } else {
                    self.stage = PollStage::StoringWaker;
                    PollAction::StoreWaker
                }
            },
            (PollStage::StoringWaker, PollEvent::WakerStored(stored)) => {
                if stored {
                    self.stage = PollStage::SecondCheck;
                    PollAction::LoadActive
                } else {
                    self.stage = PollStage::Idle;
                    PollAction::Failed(Error::System(SystemError::WakerLockPoisoned))
                }
            },
            (_, PollEvent::ActiveLoaded(active)) => {
                self.stage = PollStage::Idle;
                if active {
                    PollAction::Ready
                } else {
                    PollAction::Pending
                }
            },
            (_, PollEvent::WakerStored(_)) => PollAction::Pending,
        }
    }

    /// What the watcher does with the value the user's handler returned:
    /// `true` (the user agreed to terminate) starts completing the future.
    pub fn on_handler_result(handled: bool) -> (r: HandlerAction)
        ensures
            r == spec_handler_start(handled),
    {
        if handled {
            HandlerAction::SetActive
        } else {
            HandlerAction::KeepWaiting
        }
    }

    /// The action that follows `done` while completing the future.
    pub fn after_handler_action(done: HandlerAction) -> (r: HandlerAction)
        ensures
            r == spec_handler_next(done),
    {
        match done {
            HandlerAction::SetActive => HandlerAction::WakeStoredWaker,
            HandlerAction::WakeStoredWaker => HandlerAction::Done,
            other => other,
        }
    }

    /// Dropping the future releases the instance slot, so that a new one may
    /// be created. The registered handler stays registered.
    pub fn release(&self, registry: &mut HandlerRegistry)
        ensures
            final(registry)@ == spec_release_instance(old(registry)@),
    {
        registry.release_instance();
    }
}

/// The stage reached, and the actions returned, when a poll in `stage` is
/// given `events` one after the other.
pub open spec fn spec_poll_run(stage: PollStage, events: Seq<PollEvent>) -> (PollStage, Seq<PollAction>)
    decreases events.len(),
{
    if events.len() == 0 {
        (stage, seq![])
    } else {
        let prev = spec_poll_run(stage, events.drop_last());
        let next = spec_poll_step(prev.0, events.last());
        (next.0, prev.1.push(next.1))
    }
}

/// Every event of `events` answers the action that preceded it.
pub open spec fn spec_poll_trace(stage: PollStage, events: Seq<PollEvent>) -> bool
    decreases events.len(),
{
    events.len() == 0 || (spec_poll_trace(stage, events.drop_last()) && spec_poll_accepts(
        spec_poll_run(stage, events.drop_last()).0,
        events.last(),
    ))
}

proof fn lemma_poll_run_inv(events: Seq<PollEvent>)
    requires
        spec_poll_trace(PollStage::FirstCheck, events),
    ensures
        ({
            let (stage, acts) = spec_poll_run(PollStage::FirstCheck, events);
            let f = PollEvent::ActiveLoaded(false);
            let t = PollEvent::ActiveLoaded(true);
            &&& acts.len() == events.len()
            &&& stage == PollStage::FirstCheck ==> events.len() == 0
            &&& stage == PollStage::StoringWaker ==> events =~= seq![f]
            &&& stage == PollStage::SecondCheck ==> events =~= seq![f, PollEvent::WakerStored(true)]
            &&& stage == PollStage::Idle ==> {
                ||| events =~= seq![t] && acts.last() == PollAction::Ready
                ||| events =~= seq![f, PollEvent::WakerStored(true), t] && acts.last()
                    == PollAction::Ready
                ||| events =~= seq![f, PollEvent::WakerStored(true), f] && acts.last()
                    == PollAction::Pending
                ||| events =~= seq![f, PollEvent::WakerStored(false)] && acts.last()
                    == PollAction::Failed(Error::System(SystemError::WakerLockPoisoned))
            }
        }),
    decreases events.len(),
{
    if events.len() > 0 {
        let prefix = events.drop_last();
        lemma_poll_run_inv(prefix);
        let (ps, pacts) = spec_poll_run(PollStage::FirstCheck, prefix);
        let e = events.last();
        assert(events =~= prefix.push(e));
        if ps == PollStage::FirstCheck {
            assert(prefix =~= Seq::<PollEvent>::empty());
        }
    }
}

/// A single poll ends after at most three observations, in one of four ways:
/// ready when the first load sees the flag set; otherwise the waker is
/// stored, and the poll fails if its lock was poisoned, is ready if the
/// second load sees the flag set, and is left pending only when the waker
/// was stored before the flag was seen unset a second time. How this
/// interleaves with the handler is stated in `crate::interleaving`.
pub proof fn lemma_poll_outcomes(events: Seq<PollEvent>)
    requires
        spec_poll_trace(PollStage::FirstCheck, events),
        events.len() > 0,
        spec_poll_run(PollStage::FirstCheck, events).0 == PollStage::Idle,
    ensures
        ({
            let last = spec_poll_run(PollStage::FirstCheck, events).1.last();
            let f = PollEvent::ActiveLoaded(false);
            let t = PollEvent::ActiveLoaded(true);
            &&& events.len() <= 3
            &&& last == PollAction::Ready <==> (events =~= seq![t] || events =~= seq![
                f,
                PollEvent::WakerStored(true),
                t,
            ])
            &&& last == PollAction::Pending <==> events =~= seq![f, PollEvent::WakerStored(true), f]
            &&& last == PollAction::Failed(Error::System(SystemError::WakerLockPoisoned))
                <==> events =~= seq![f, PollEvent::WakerStored(false)]
        }),
{
    lemma_poll_run_inv(events);
}

/// A poll that has not ended expects another observation: it never stalls.
pub proof fn lemma_poll_in_progress_continues(events: Seq<PollEvent>)
    requires
        spec_poll_trace(PollStage::FirstCheck, events),
        spec_poll_run(PollStage::FirstCheck, events).0 != PollStage::Idle,
    ensures
        exists|e: PollEvent| spec_poll_accepts(spec_poll_run(PollStage::FirstCheck, events).0, e),
{
    lemma_poll_run_inv(events);
    let stage = spec_poll_run(PollStage::FirstCheck, events).0;
    if stage == PollStage::StoringWaker {
        assert(spec_poll_accepts(stage, PollEvent::WakerStored(true)));
    } else {
        assert(spec_poll_accepts(stage, PollEvent::ActiveLoaded(true)));
    }
}


/// What one step of a poll answers, whatever stage accepted the observation:
/// the poll is ready exactly when a load sees the flag set; a first load that
/// sees it unset is followed by storing the waker; a stored waker by a
/// second load; a poisoned lock fails the poll; a second load that sees the
/// flag unset leaves it pending. Every poll that answers `Ready`, `Failed`
/// or `Pending` has ended.
pub proof fn lemma_poll_step_answers(stage: PollStage, event: PollEvent)
    requires
        spec_poll_accepts(stage, event),
    ensures
        ({
            let (next, a) = spec_poll_step(stage, event);
            &&& a == PollAction::Ready <==> event == PollEvent::ActiveLoaded(true)
            &&& a == PollAction::Pending <==> (stage == PollStage::SecondCheck && event
                == PollEvent::ActiveLoaded(false))
            &&& a is Failed <==> event == PollEvent::WakerStored(false)
            &&& a is Failed ==> a == PollAction::Failed(
                Error::System(SystemError::WakerLockPoisoned),
            )
            &&& (stage == PollStage::FirstCheck && event == PollEvent::ActiveLoaded(false)) ==> (
            next == PollStage::StoringWaker && a == PollAction::StoreWaker)
            &&& event == PollEvent::WakerStored(true) ==> next == PollStage::SecondCheck && a
                == PollAction::LoadActive
            &&& next == PollStage::Idle <==> (a is Ready || a is Failed || a is Pending)
        }),
{
}

/// The handler's completion: a handler that returned `true` first sets the
/// flag, then wakes the stored waker, then is done; one that returned
/// `false` keeps waiting and does nothing to the shared state.
pub proof fn lemma_completion_order(handled: bool)
    ensures
        spec_handler_start(handled) == HandlerAction::SetActive <==> handled,
        !handled ==> spec_handler_start(handled) == HandlerAction::KeepWaiting,
        spec_handler_next(HandlerAction::SetActive) == HandlerAction::WakeStoredWaker,
        spec_handler_next(HandlerAction::WakeStoredWaker) == HandlerAction::Done,
        spec_handler_next(HandlerAction::Done) == HandlerAction::Done,
        spec_handler_next(HandlerAction::KeepWaiting) == HandlerAction::KeepWaiting,
{
}

} // verus!
