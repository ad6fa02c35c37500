//! How polls of the Ctrl-C future interleave with the handler's completion.
//!
//! The future and the watcher thread share an `active` flag and a slot for
//! the task's waker. Each access (a load or store of the flag, a store or a
//! take of the waker under its lock) is one atomic move; the moves of a poll
//! follow [`spec_poll_step`] and those of the handler follow
//! [`spec_handler_start`] and [`spec_handler_next`], the specifications of the
//! functions that decide them. Any interleaving of those moves is a run of
//! [`spec_shared_move`]; the laws below hold of every run.
use vstd::prelude::*;

use crate::async_ctrlc::{
    spec_handler_next, spec_handler_start, spec_poll_step, HandlerAction, PollAction, PollEvent,
    PollStage,
};

verus! {

/// The state shared by the future, the executor and the watcher thread.
pub struct SharedState {
    /// The `active` flag.
    pub active: bool,
    /// The number of the poll whose waker is stored in the slot, if any.
    pub slot: Option<nat>,
    /// Where the current poll stands.
    pub poll: PollStage,
    /// The number of polls begun so far; the current poll is the last one.
    pub poll_number: nat,
    /// What the current poll returned, once it has returned.
    pub outcome: Option<PollAction>,
    /// The handler's next action; `KeepWaiting` until a call returns `true`.
    pub handler: HandlerAction,
    /// What the user's handler returned, call after call.
    pub answers: Seq<bool>,
    /// The numbers of the polls whose waker was woken.
    pub woken: Set<nat>,
}

/// One atomic move of the future or of the watcher thread.
#[derive(Debug, Clone, Copy, PartialEq, Eq, Structural)]
pub enum SharedMove {
    /// The executor polls the future.
    BeginPoll,
    /// The poll loads the `active` flag.
    LoadActive,
    /// The poll stores its waker in the slot.
    StoreWaker,
    /// The poll finds the slot's lock poisoned.
    StoreWakerFails,
    /// A signal arrived and the user's handler returned this value.
    HandlerReturned(bool),
    /// The watcher performs the handler's next completion action.
    HandlerAct,
}

/// Nothing has happened yet.
pub open spec fn spec_shared_init() -> SharedState {
    SharedState {
        active: false,
        slot: None,
        poll: PollStage::Idle,
        poll_number: 0,
        outcome: None,
        handler: HandlerAction::KeepWaiting,
        answers: seq![],
        woken: Set::empty(),
    }
}

/// Whether `m` can happen in `s`.
pub open spec fn spec_shared_enabled(s: SharedState, m: SharedMove) -> bool {
    match m {
        SharedMove::BeginPoll => s.poll == PollStage::Idle,
        SharedMove::LoadActive => s.poll == PollStage::FirstCheck || s.poll
            == PollStage::SecondCheck,
        SharedMove::StoreWaker => s.poll == PollStage::StoringWaker,
        SharedMove::StoreWakerFails => s.poll == PollStage::StoringWaker,
        SharedMove::HandlerReturned(_) => s.handler == HandlerAction::KeepWaiting,
        SharedMove::HandlerAct => s.handler == HandlerAction::SetActive || s.handler
            == HandlerAction::WakeStoredWaker,
    }
}

/// The poll's outcome after it took `action`.
pub open spec fn spec_outcome_after(previous: Option<PollAction>, action: PollAction) -> Option<PollAction> {
    match action {
        PollAction::LoadActive => previous,
        PollAction::StoreWaker => previous,
        _ => Some(action),
    }
}

/// The state after move `m`.
pub open spec fn spec_shared_move(s: SharedState, m: SharedMove) -> SharedState {
    match m {
        SharedMove::BeginPoll => SharedState {
            poll: PollStage::FirstCheck,
            poll_number: s.poll_number + 1,
            outcome: None,
            ..s
        },
        SharedMove::LoadActive => {
            let (stage, action) = spec_poll_step(s.poll, PollEvent::ActiveLoaded(s.active));
            SharedState { poll: stage, outcome: spec_outcome_after(s.outcome, action), ..s }
        },
        SharedMove::StoreWaker => {
            let (stage, action) = spec_poll_step(s.poll, PollEvent::WakerStored(true));
            SharedState {
                poll: stage,
                slot: Some(s.poll_number),
                outcome: spec_outcome_after(s.outcome, action),
                ..s
            }
        },
        SharedMove::StoreWakerFails => {
            let (stage, action) = spec_poll_step(s.poll, PollEvent::WakerStored(false));
            SharedState { poll: stage, outcome: spec_outcome_after(s.outcome, action), ..s }
        },
        SharedMove::HandlerReturned(b) => SharedState {
            answers: s.answers.push(b),
            handler: spec_handler_start(b),
            ..s
        },
        SharedMove::HandlerAct => {
            if s.handler == HandlerAction::SetActive {
                SharedState { active: true, handler: spec_handler_next(s.handler), ..s }
            } else {
                SharedState {
                    woken: match s.slot {
                        Some(n) => s.woken.insert(n),
                        None => s.woken,
                    },
                    slot: None,
                    handler: spec_handler_next(s.handler),
                    ..s
                }
            }
        },
    }
}

/// The state reached after the moves of `moves`, in order.
pub open spec fn spec_shared_run(moves: Seq<SharedMove>) -> SharedState
    decreases moves.len(),
{
    if moves.len() == 0 {
        spec_shared_init()
    } else {
        spec_shared_move(spec_shared_run(moves.drop_last()), moves.last())
    }
}

/// Every move of `moves` could happen when it did.
pub open spec fn spec_shared_trace(moves: Seq<SharedMove>) -> bool
    decreases moves.len(),
{
    moves.len() == 0 || (spec_shared_trace(moves.drop_last()) && spec_shared_enabled(
        spec_shared_run(moves.drop_last()),
        moves.last(),
    ))
}

/// The user's handler accepted a signal on its last call, and on no earlier one.
pub open spec fn spec_accepted_last(answers: Seq<bool>) -> bool {
    &&& answers.len() > 0
    &&& answers.last()
    &&& forall|k: int| 0 <= k < answers.len() - 1 ==> !#[trigger] answers[k]
}

/// What every reachable state satisfies.
pub open spec fn spec_shared_inv(s: SharedState) -> bool {
    &&& !s.active <==> (s.handler == HandlerAction::KeepWaiting || s.handler
        == HandlerAction::SetActive)
    &&& s.poll == PollStage::SecondCheck && !s.active ==> s.slot == Some(s.poll_number)
    &&& s.poll == PollStage::Idle && s.outcome == Some(PollAction::Pending) ==> (s.woken.contains(
        s.poll_number,
    ) || (s.slot == Some(s.poll_number) && s.handler != HandlerAction::Done))
    &&& s.poll != PollStage::Idle ==> s.outcome is None
    &&& s.outcome == Some(PollAction::Ready) ==> s.active
    &&& s.handler == HandlerAction::KeepWaiting ==> forall|k: int|
        0 <= k < s.answers.len() ==> !#[trigger] s.answers[k]
    &&& s.handler != HandlerAction::KeepWaiting ==> spec_accepted_last(s.answers)
}

proof fn lemma_shared_move_keeps_inv(s: SharedState, m: SharedMove)
    requires
        spec_shared_inv(s),
        spec_shared_enabled(s, m),
    ensures
        spec_shared_inv(spec_shared_move(s, m)),
        s.active ==> spec_shared_move(s, m).active,
{
    let t = spec_shared_move(s, m);
    match m {
        SharedMove::HandlerReturned(b) => {
            assert(t.answers.last() == b);
            assert forall|k: int| 0 <= k < t.answers.len() - 1 implies t.answers[k] == s.answers[k] by {}
            if !b {
                assert forall|k: int| 0 <= k < t.answers.len() implies !#[trigger] t.answers[k] by {
                    if k < s.answers.len() {
                        assert(t.answers[k] == s.answers[k]);
                    }
                }
            }
        },
        _ => {},
    }
}

proof fn lemma_shared_run_inv(moves: Seq<SharedMove>)
    requires
        spec_shared_trace(moves),
    ensures
        spec_shared_inv(spec_shared_run(moves)),
    decreases moves.len(),
{
    if moves.len() > 0 {
        lemma_shared_run_inv(moves.drop_last());
        lemma_shared_move_keeps_inv(spec_shared_run(moves.drop_last()), moves.last());
    }
}

/// No wake-up is lost. Whenever the current poll has left the task pending,
/// its waker is still in the slot and the handler has not finished (so the
/// handler, which sets the flag and then takes and wakes the stored waker,
/// is still to wake it), or that waker has been woken. In particular, once
/// the handler has completed, the pending poll's waker has been woken.
pub proof fn lemma_no_lost_wakeup(moves: Seq<SharedMove>)
    requires
        spec_shared_trace(moves),
    ensures
        ({
            let s = spec_shared_run(moves);
            s.poll == PollStage::Idle && s.outcome == Some(PollAction::Pending) ==> {
                ||| s.woken.contains(s.poll_number)
                ||| s.slot == Some(s.poll_number) && (s.handler == HandlerAction::KeepWaiting
                    || s.handler == HandlerAction::SetActive || s.handler
                    == HandlerAction::WakeStoredWaker)
            }
        }),
        ({
            let s = spec_shared_run(moves);
            s.poll == PollStage::Idle && s.outcome == Some(PollAction::Pending) && s.handler
                == HandlerAction::Done ==> s.woken.contains(s.poll_number)
        }),
{
    lemma_shared_run_inv(moves);
}

/// Completion is never undone: once a poll returned ready the flag is set,
/// no move clears it, and every later load of it, so every later poll,
/// returns ready.
pub proof fn lemma_ready_is_final(moves: Seq<SharedMove>, m: SharedMove)
    requires
        spec_shared_trace(moves),
        spec_shared_run(moves).outcome == Some(PollAction::Ready),
    ensures
        spec_shared_run(moves).active,
        spec_shared_enabled(spec_shared_run(moves), m) ==> spec_shared_move(
            spec_shared_run(moves),
            m,
        ).active,
        spec_shared_enabled(spec_shared_run(moves), m) && m == SharedMove::LoadActive ==> {
            &&& spec_shared_move(spec_shared_run(moves), m).outcome == Some(PollAction::Ready)
            &&& spec_shared_move(spec_shared_run(moves), m).poll == PollStage::Idle
        },
{
    lemma_shared_run_inv(moves);
    let s = spec_shared_run(moves);
    if spec_shared_enabled(s, m) {
        lemma_shared_move_keeps_inv(s, m);
    }
}

/// Once the flag is set it stays set over any further moves, so every poll
/// that begins afterwards returns ready at its first load.
pub proof fn lemma_active_stays(moves: Seq<SharedMove>, more: Seq<SharedMove>)
    requires
        spec_shared_trace(moves + more),
        spec_shared_run(moves).active,
    ensures
        spec_shared_run(moves + more).active,
    decreases more.len(),
{
    if more.len() > 0 {
        let all = moves + more;
        let shorter = more.drop_last();
        assert(all.drop_last() =~= moves + shorter);
        lemma_active_stays(moves, shorter);
        lemma_shared_run_inv(all.drop_last());
        lemma_shared_move_keeps_inv(spec_shared_run(all.drop_last()), all.last());
    }
}

/// The future becomes ready only after the user's handler accepted a signal:
/// every earlier call returned `false`, the last call returned `true`, and
/// no further call is made. With a handler that declines the first `n - 1`
/// signals and accepts the `n`-th, the future is ready only after exactly
/// `n` calls.
pub proof fn lemma_ready_only_after_acceptance(moves: Seq<SharedMove>)
    requires
        spec_shared_trace(moves),
    ensures
        ({
            let s = spec_shared_run(moves);
            &&& s.active ==> spec_accepted_last(s.answers)
            &&& s.outcome == Some(PollAction::Ready) ==> spec_accepted_last(s.answers)
            &&& s.active ==> forall|b: bool| !spec_shared_enabled(s, SharedMove::HandlerReturned(b))
            &&& !s.active ==> s.handler == HandlerAction::SetActive || forall|k: int|
                0 <= k < s.answers.len() ==> !#[trigger] s.answers[k]
        }),
{
    lemma_shared_run_inv(moves);
}

} // verus!
