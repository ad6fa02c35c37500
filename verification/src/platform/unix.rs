//! Decisions of the Unix back end (self-pipe plus `sigaction`).
use vstd::prelude::*;

use crate::error::{Error, SystemError};

verus! {

/// What one `read` of a single byte from the wake-up pipe returned.
#[derive(Debug, Clone, Copy, PartialEq, Eq, Structural)]
pub enum PipeRead {
    /// The read succeeded and delivered this many bytes.
    Bytes(usize),
    /// The read was interrupted by a signal (`EINTR`).
    Interrupted,
    /// The read failed with this `errno`.
    Failed(i32),
}

/// What the watcher does after one read of the wake-up pipe.
#[derive(Debug, Clone, Copy, PartialEq, Eq, Structural)]
pub enum ReadStep {
    /// A signal arrived: stop blocking.
    Signalled,
    /// Read the pipe again.
    Retry,
    /// Give up with this error.
    Failed(Error),
}

/// The step that follows a read, as a function of what the read returned.
pub open spec fn spec_read_step(read: PipeRead) -> ReadStep {
    match read {
        PipeRead::Bytes(n) => if n == 1 {
            ReadStep::Signalled
        } else {
            ReadStep::Failed(Error::System(SystemError::UnexpectedEof))
        },
        PipeRead::Interrupted => ReadStep::Retry,
        PipeRead::Failed(e) => ReadStep::Failed(Error::System(SystemError::Os(e))),
    }
}

/// Blocks until a Ctrl-C signal is received: the decision taken after each
/// read of one byte from the wake-up pipe. Exactly one byte means a signal
/// arrived; an interrupted read is retried; anything else is an error.
pub fn block_ctrl_c(read: PipeRead) -> (r: ReadStep)
    ensures
        r == spec_read_step(read),
{
    match read {
        PipeRead::Bytes(n) => if n == 1 {
            ReadStep::Signalled
        } else {
            ReadStep::Failed(Error::System(SystemError::UnexpectedEof))
        },
        PipeRead::Interrupted => ReadStep::Retry,
        PipeRead::Failed(e) => ReadStep::Failed(Error::System(SystemError::Os(e))),
    }
}

/// A signal whose disposition the library installs.
#[derive(Debug, Clone, Copy, PartialEq, Eq, Structural)]
pub enum HandledSignal {
    /// `SIGINT`, sent by Ctrl-C.
    Interrupt,
    /// `SIGTERM`.
    Terminate,
    /// `SIGHUP`.
    Hangup,
}

/// The signals handled, in the order they are installed: Ctrl-C alone, or
/// Ctrl-C followed by the termination signals.
pub open spec fn spec_handled_signals(termination: bool) -> Seq<HandledSignal> {
    if termination {
        seq![HandledSignal::Interrupt, HandledSignal::Terminate, HandledSignal::Hangup]
    } else {
        seq![HandledSignal::Interrupt]
    }
}

/// The signals handled, in installation order.
pub fn handled_signals(termination: bool) -> (r: Vec<HandledSignal>)
    ensures
        r@ == spec_handled_signals(termination),
{
    if termination {
        vec![HandledSignal::Interrupt, HandledSignal::Terminate, HandledSignal::Hangup]
    } else {
        vec![HandledSignal::Interrupt]
    }
}

fn handled_signal_count(termination: bool) -> (r: usize)
    ensures
        r == spec_handled_signals(termination).len(),
{
    if termination {
        3
    } else {
        1
    }
}

fn nth_handled_signal(termination: bool, i: usize) -> (r: HandledSignal)
    requires
        i < spec_handled_signals(termination).len(),
    ensures
        r == spec_handled_signals(termination)[i as int],
{
    if i == 0 {
        HandledSignal::Interrupt
    } else if i == 1 {
        HandledSignal::Terminate
    } else {
        HandledSignal::Hangup
    }
}

/// Where the installation of the OS handler stands.
#[derive(Debug, Clone, Copy, PartialEq, Eq, Structural)]
pub enum SetupStage {
    /// Waiting for the wake-up pipe to be created.
    CreatingPipe,
    /// Waiting for the write end of the wake-up pipe to be made non-blocking.
    PreparePipe,
    /// Waiting for the disposition of the signal at this index to be installed.
    Installing(usize),
    /// The installation is over; no further event is expected.
    Finished,
}

/// What the embedding program observed when it performed the requested action.
#[derive(Debug, Clone, Copy, PartialEq, Eq, Structural)]
pub enum SetupEvent {
    /// The wake-up pipe was created, with close-on-exec on both ends.
    PipeCreated,
    /// Creating the wake-up pipe failed with this `errno`.
    PipeCreateFailed(i32),
    /// The write end of the wake-up pipe is now non-blocking.
    PipeReady,
    /// Making the pipe non-blocking failed with this `errno`.
    PipeFailed(i32),
    /// `sigaction` installed the handler; the disposition it replaced was the
    /// default one (`SIG_DFL`) exactly when `previous_was_default`.
    Installed { previous_was_default: bool },
    /// `sigaction` failed with this `errno`; nothing was replaced.
    InstallFailed(i32),
}

/// What the embedding program does next while installing the OS handler.
#[derive(Debug, Clone, Copy, PartialEq, Eq, Structural)]
pub enum SetupAction {
    /// Create the wake-up pipe, with close-on-exec on both ends exactly when
    /// `close_on_exec`, and keep it for the lifetime of the process.
    CreatePipe { close_on_exec: bool },
    /// Make the write end of the wake-up pipe non-blocking, so that the
    /// signal handler never blocks on it.
    MakePipeNonBlocking,
    /// Install the library's handler for this signal, in this way, keeping
    /// the disposition it replaces.
    Install(HandledSignal, HandlerDisposition),
    /// The handler is installed for every handled signal.
    Succeed,
    /// Put back the saved disposition of the first `restore` handled signals,
    /// in order, then report `error`.
    Fail { restore: usize, error: Error },
}

/// How the library's handler is installed for a signal.
#[derive(Debug, Clone, Copy, PartialEq, Eq, Structural)]
pub struct HandlerDisposition {
    /// `SA_RESTART`: system calls interrupted by the signal are restarted.
    pub restart: bool,
    /// No other signal is blocked while the handler runs: an empty `sa_mask`.
    pub empty_mask: bool,
}

/// The way the handler is installed: with `SA_RESTART` where the system
/// supports it (QNX Neutrino 7.1 and earlier do not), with no other flag, and
/// with an empty signal mask.
pub open spec fn spec_handler_disposition(restart_supported: bool) -> HandlerDisposition {
    HandlerDisposition { restart: restart_supported, empty_mask: true }
}

/// The way the handler is installed, as [`spec_handler_disposition`] says.
pub fn handler_disposition(restart_supported: bool) -> (r: HandlerDisposition)
    ensures
        r == spec_handler_disposition(restart_supported),
{
    HandlerDisposition { restart: restart_supported, empty_mask: true }
}

/// The abstract state of an [`OsHandlerSetup`].
#[derive(Debug, Clone, Copy, PartialEq, Eq, Structural)]
pub struct SetupView {
    /// Handlers that other code installed may be replaced.
    pub overwrite: bool,
    /// The termination signals are handled as well as Ctrl-C.
    pub termination: bool,
    /// The system supports `SA_RESTART`.
    pub restart: bool,
    /// Where the installation stands.
    pub stage: SetupStage,
}

/// The installation of the OS handler, driven one observation at a time.
pub struct OsHandlerSetup {
    overwrite: bool,
    termination: bool,
    restart: bool,
    stage: SetupStage,
}

impl View for OsHandlerSetup {
    type V = SetupView;

    closed spec fn view(&self) -> SetupView {
        SetupView {
            overwrite: self.overwrite,
            termination: self.termination,
            restart: self.restart,
            stage: self.stage,
        }
    }
}

/// The state in which an installation starts: the wake-up pipe is created
/// only when the process does not hold one yet.
pub open spec fn spec_setup_start(
    overwrite: bool,
    termination: bool,
    pipe_exists: bool,
    restart: bool,
) -> SetupView {
    SetupView {
        overwrite,
        termination,
        restart,
        stage: if pipe_exists {
            SetupStage::PreparePipe
        } else {
            SetupStage::CreatingPipe
        },
    }
}

/// The first action of an installation.
pub open spec fn spec_setup_first_action(pipe_exists: bool) -> SetupAction {
    if pipe_exists {
        SetupAction::MakePipeNonBlocking
    } else {
        SetupAction::CreatePipe { close_on_exec: true }
    }
}

/// A state that some installation can reach.
pub open spec fn spec_setup_wf(v: SetupView) -> bool {
    v.stage matches SetupStage::Installing(i) ==> i < spec_handled_signals(v.termination).len()
}

/// Whether `event` answers the action that led to `v`.
pub open spec fn spec_setup_accepts(v: SetupView, event: SetupEvent) -> bool {
    match (v.stage, event) {
        (SetupStage::CreatingPipe, SetupEvent::PipeCreated) => true,
        (SetupStage::CreatingPipe, SetupEvent::PipeCreateFailed(_)) => true,
        (SetupStage::PreparePipe, SetupEvent::PipeReady) => true,
        (SetupStage::PreparePipe, SetupEvent::PipeFailed(_)) => true,
        (SetupStage::Installing(_), SetupEvent::Installed { .. }) => true,
        (SetupStage::Installing(_), SetupEvent::InstallFailed(_)) => true,
        _ => false,
    }
}

/// One step of the installation: the next state and the action to perform.
///
/// A pipe that cannot be created fails the installation before any signal
/// is touched. A failed `sigaction` puts back what was replaced before it; a replaced
/// handler that was not the default one, when overwriting is not allowed,
/// puts back what was replaced including it, and reports that a handler exists.
pub open spec fn spec_setup_step(v: SetupView, event: SetupEvent) -> (SetupView, SetupAction) {
    let signals = spec_handled_signals(v.termination);
    match (v.stage, event) {
        (SetupStage::CreatingPipe, SetupEvent::PipeCreated) => (
            SetupView { stage: SetupStage::PreparePipe, ..v },
            SetupAction::MakePipeNonBlocking,
        ),
        (SetupStage::CreatingPipe, SetupEvent::PipeCreateFailed(code)) => (
            SetupView { stage: SetupStage::Finished, ..v },
            SetupAction::Fail { restore: 0, error: Error::System(SystemError::Os(code)) },
        ),
        (SetupStage::PreparePipe, SetupEvent::PipeReady) => (
            SetupView { stage: SetupStage::Installing(0), ..v },
            SetupAction::Install(signals[0], spec_handler_disposition(v.restart)),
        ),
        (SetupStage::PreparePipe, SetupEvent::PipeFailed(code)) => (
            SetupView { stage: SetupStage::Finished, ..v },
            SetupAction::Fail { restore: 0, error: Error::System(SystemError::Os(code)) },
        ),
        (SetupStage::Installing(i), SetupEvent::InstallFailed(code)) => (
            SetupView { stage: SetupStage::Finished, ..v },
            SetupAction::Fail { restore: i, error: Error::System(SystemError::Os(code)) },
        ),
        (SetupStage::Installing(i), SetupEvent::Installed { previous_was_default }) => {
            if !v.overwrite && !previous_was_default {
                (
                    SetupView { stage: SetupStage::Finished, ..v },
                    SetupAction::Fail {
                        restore: (i + 1) as usize,
                        error: Error::System(SystemError::HandlerExists),
                    },
                )
            } else if i + 1 < signals.len() {
                (
                    SetupView { stage: SetupStage::Installing((i + 1) as usize), ..v },
                    SetupAction::Install(signals[i + 1], spec_handler_disposition(v.restart)),
                )
            } else {
                (SetupView { stage: SetupStage::Finished, ..v }, SetupAction::Succeed)
            }
        },
        _ => (v, SetupAction::Succeed),
    }
}

/// Register the OS signal handler: starts the installation. Its first action
/// creates the wake-up pipe, with close-on-exec, when `pipe_exists` says the
/// process holds none yet; otherwise the pipe it holds is kept and the first
/// action makes its write end non-blocking. Every signal gets the handler
/// installed as [`spec_handler_disposition`]`(restart)` says, `restart`
/// telling whether the system supports `SA_RESTART`. Must be run to its end before
/// [`block_ctrl_c`] is used, and only once.
pub fn init_os_handler(
    overwrite: bool,
    termination: bool,
    pipe_exists: bool,
    restart: bool,
) -> (r: (OsHandlerSetup, SetupAction))
    ensures
        r.0@ == spec_setup_start(overwrite, termination, pipe_exists, restart),
        r.1 == spec_setup_first_action(pipe_exists),
{
    if pipe_exists {
        (
            OsHandlerSetup { overwrite, termination, restart, stage: SetupStage::PreparePipe },
            SetupAction::MakePipeNonBlocking,
        )
    } else {
        (
            OsHandlerSetup { overwrite, termination, restart, stage: SetupStage::CreatingPipe },
            SetupAction::CreatePipe { close_on_exec: true },
        )
    }
}

impl OsHandlerSetup {
    #[verifier::type_invariant]
    closed spec fn inv(self) -> bool {
        spec_setup_wf(self@)
    }

    /// Where the installation stands.
    pub fn stage(&self) -> (r: SetupStage)
        ensures
            r == self@.stage,
    {
        self.stage
    }

    /// The signals this installation handles, in order.
    pub fn signals(&self) -> (r: Vec<HandledSignal>)
        ensures
            r@ == spec_handled_signals(self@.termination),
    {
        handled_signals(self.termination)
    }

    /// Takes what the embedding program observed and returns the next action.
    pub fn step(&mut self, event: SetupEvent) -> (r: SetupAction)
        requires
            spec_setup_accepts(old(self)@, event),
        ensures
            (final(self)@, r) == spec_setup_step(old(self)@, event),
            spec_setup_wf(final(self)@),
    {
        proof {
            use_type_invariant(&*self);
        }
        let termination = self.termination;
        match (self.stage, event) {
            (SetupStage::CreatingPipe, SetupEvent::PipeCreated) => {
                self.stage = SetupStage::PreparePipe;
                SetupAction::MakePipeNonBlocking
            },
            (SetupStage::CreatingPipe, SetupEvent::PipeCreateFailed(code)) => {
                self.stage = SetupStage::Finished;
                SetupAction::Fail { restore: 0, error: Error::System(SystemError::Os(code)) }
            },
            (SetupStage::PreparePipe, SetupEvent::PipeFailed(code)) => {
                self.stage = SetupStage::Finished;
                SetupAction::Fail { restore: 0, error: Error::System(SystemError::Os(code)) }
            },
            (SetupStage::Installing(i), SetupEvent::InstallFailed(code)) => {
                self.stage = SetupStage::Finished;
                SetupAction::Fail { restore: i, error: Error::System(SystemError::Os(code)) }
            },
            (SetupStage::Installing(i), SetupEvent::Installed { previous_was_default }) => {
                if !self.overwrite && !previous_was_default {
                    self.stage = SetupStage::Finished;
                    SetupAction::Fail {
                        restore: i + 1,
                        error: Error::System(SystemError::HandlerExists),
                    }
                } else if i + 1 < handled_signal_count(termination) {
                    self.stage = SetupStage::Installing(i + 1);
                    SetupAction::Install(
                        nth_handled_signal(termination, i + 1),
                        handler_disposition(self.restart),
                    )
                } else {
                    self.stage = SetupStage::Finished;
                    SetupAction::Succeed
                }
            },
            (_, _) => {
                self.stage = SetupStage::Installing(0);
                SetupAction::Install(nth_handled_signal(termination, 0), handler_disposition(self.restart))
            },
        }
    }
}

/// The state reached, and the actions returned, when the installation
/// started in `v` is given `events` one after the other.
pub open spec fn spec_setup_run(v: SetupView, events: Seq<SetupEvent>) -> (SetupView, Seq<SetupAction>)
    decreases events.len(),
{
    if events.len() == 0 {
        (v, seq![])
    } else {
        let prev = spec_setup_run(v, events.drop_last());
        let next = spec_setup_step(prev.0, events.last());
        (next.0, prev.1.push(next.1))
    }
}

/// Every event of `events` answers the action that preceded it.
pub open spec fn spec_setup_trace(v: SetupView, events: Seq<SetupEvent>) -> bool
    decreases events.len(),
{
    events.len() == 0 || (spec_setup_trace(v, events.drop_last()) && spec_setup_accepts(
        spec_setup_run(v, events.drop_last()).0,
        events.last(),
    ))
}

/// How many signals had their disposition replaced during `events`.
pub open spec fn spec_replaced_count(events: Seq<SetupEvent>) -> nat
    decreases events.len(),
{
    if events.len() == 0 {
        0
    } else {
        spec_replaced_count(events.drop_last()) + if events.last() is Installed {
            1nat
        } else {
            0nat
        }
    }
}

/// No step of `events` failed.
pub open spec fn spec_no_failure(events: Seq<SetupEvent>) -> bool {
    forall|k: int|
        0 <= k < events.len() ==> !(#[trigger] events[k] is PipeCreateFailed) && !(
        events[k] is PipeFailed) && !(events[k] is InstallFailed)
}

/// Every disposition replaced during `events` was the default one.
pub open spec fn spec_only_defaults_replaced(events: Seq<SetupEvent>) -> bool {
    forall|k: int|
        0 <= k < events.len() ==> (#[trigger] events[k] matches SetupEvent::Installed {
            previous_was_default,
        } ==> previous_was_default)
}

/// How many events precede the preparation of the pipe: one (its creation)
/// when the process held no pipe, none otherwise.
pub open spec fn spec_pipe_offset(pipe_exists: bool) -> int {
    if pipe_exists {
        0
    } else {
        1
    }
}

proof fn lemma_setup_run_inv(
    overwrite: bool,
    termination: bool,
    pipe_exists: bool,
    restart: bool,
    events: Seq<SetupEvent>,
)
    requires
        spec_setup_trace(spec_setup_start(overwrite, termination, pipe_exists, restart), events),
    ensures
        ({
            let (v, acts) = spec_setup_run(
                spec_setup_start(overwrite, termination, pipe_exists, restart),
                events,
            );
            let signals = spec_handled_signals(termination);
            let off = spec_pipe_offset(pipe_exists);
            &&& v.overwrite == overwrite && v.termination == termination && v.restart == restart
            &&& spec_setup_wf(v)
            &&& acts.len() == events.len()
            &&& forall|k: int|
                0 <= k < acts.len() ==> (#[trigger] acts[k] matches SetupAction::Install(s, d) ==> 0
                    <= k - off < signals.len() && s == signals[k - off] && d
                    == spec_handler_disposition(restart))
            &&& forall|k: int| 0 <= k < acts.len() ==> !(#[trigger] acts[k] is CreatePipe)
            &&& !pipe_exists && events.len() > 0 ==> (events[0] is PipeCreated
                || events[0] is PipeCreateFailed)
            &&& v.stage == SetupStage::CreatingPipe ==> events.len() == 0 && !pipe_exists
            &&& v.stage == SetupStage::PreparePipe ==> events.len() == off && spec_no_failure(
                events,
            ) && spec_replaced_count(events) == 0
            &&& v.stage matches SetupStage::Installing(i) ==> {
                &&& i == spec_replaced_count(events)
                &&& events.len() == i + 1 + off
                &&& spec_no_failure(events)
                &&& overwrite || spec_only_defaults_replaced(events)
                &&& acts.last() == SetupAction::Install(
                    signals[i as int],
                    spec_handler_disposition(restart),
                )
            }
            &&& v.stage == SetupStage::Finished ==> {
                &&& 0 < events.len() <= signals.len() + 1 + off
                &&& acts.last() is Fail || acts.last() is Succeed
                &&& acts.last() matches SetupAction::Fail { restore, .. } ==> restore
                    == spec_replaced_count(events)
                &&& acts.last() is Succeed ==> {
                    &&& spec_replaced_count(events) == signals.len()
                    &&& spec_no_failure(events)
                    &&& overwrite || spec_only_defaults_replaced(events)
                }
            }
        }),
    decreases events.len(),
{
    let start = spec_setup_start(overwrite, termination, pipe_exists, restart);
    let signals = spec_handled_signals(termination);
    if events.len() > 0 {
        let prefix = events.drop_last();
        lemma_setup_run_inv(overwrite, termination, pipe_exists, restart, prefix);
        let (pv, pacts) = spec_setup_run(start, prefix);
        let e = events.last();
        let (v, acts) = spec_setup_run(start, events);
        assert(acts == pacts.push(spec_setup_step(pv, e).1));
        assert forall|k: int| 0 <= k < prefix.len() implies prefix[k] == events[k] by {}
        assert(events[events.len() - 1] == e);
        assert(spec_replaced_count(events) == spec_replaced_count(prefix) + if e is Installed {
            1nat
        } else {
            0nat
        });
        assert forall|k: int| 0 <= k < acts.len() implies !(#[trigger] acts[k] is CreatePipe) by {
            if k < pacts.len() {
                assert(acts[k] == pacts[k]);
            }
        }
        assert forall|k: int|
            0 <= k < acts.len() implies (#[trigger] acts[k] matches SetupAction::Install(s, d) ==> 0
            <= k - spec_pipe_offset(pipe_exists) < signals.len() && s == signals[k
            - spec_pipe_offset(pipe_exists)] && d == spec_handler_disposition(restart)) by {
            if k < pacts.len() {
                assert(acts[k] == pacts[k]);
            }
        }
        if spec_no_failure(prefix) && !(e is PipeCreateFailed) && !(e is PipeFailed) && !(
        e is InstallFailed) {
            assert forall|k: int|
                0 <= k < events.len() implies !(#[trigger] events[k] is PipeCreateFailed) && !(
                events[k] is PipeFailed) && !(events[k] is InstallFailed) by {
                if k < prefix.len() {
                    assert(prefix[k] == events[k]);
                }
            }
        }
        if (overwrite || spec_only_defaults_replaced(prefix)) && (overwrite || (
        e matches SetupEvent::Installed { previous_was_default } ==> previous_was_default)) {
            if !overwrite {
                assert forall|k: int|
                    0 <= k < events.len() implies (#[trigger] events[k] matches SetupEvent::Installed {
                    previous_was_default,
                } ==> previous_was_default) by {
                    if k < prefix.len() {
                        assert(prefix[k] == events[k]);
                    }
                }
            }
        }
        if prefix.len() > 0 {
            assert(events[0] == prefix[0]);
        }
    }
}

/// A failed installation puts back exactly the dispositions it replaced:
/// the signals are installed in order, the `k`-th `sigaction` installs the
/// `k`-th handled signal, always with `SA_RESTART` where supported and an
/// empty mask, and the number of signals to restore equals the
/// number of successful `sigaction` calls. A pipe that cannot be created
/// ends the installation at once, with its `errno`, before any signal is
/// touched.
pub proof fn lemma_failed_setup_restores_what_it_replaced(
    overwrite: bool,
    termination: bool,
    pipe_exists: bool,
    restart: bool,
    events: Seq<SetupEvent>,
)
    requires
        spec_setup_trace(spec_setup_start(overwrite, termination, pipe_exists, restart), events),
    ensures
        ({
            let acts = spec_setup_run(
                spec_setup_start(overwrite, termination, pipe_exists, restart),
                events,
            ).1;
            let off = spec_pipe_offset(pipe_exists);
            &&& forall|k: int|
                0 <= k < acts.len() ==> (#[trigger] acts[k] matches SetupAction::Install(s, d) ==> s
                    == spec_handled_signals(termination)[k - off] && d == spec_handler_disposition(
                    restart,
                ))
            &&& events.len() > 0 ==> (acts.last() matches SetupAction::Fail { restore, .. }
                ==> restore == spec_replaced_count(events))
            &&& forall|e: i32|
                events.len() > 0 && events[0] == SetupEvent::PipeCreateFailed(e) ==> {
                    &&& events.len() == 1
                    &&& acts =~= seq![
                        SetupAction::Fail { restore: 0, error: Error::System(SystemError::Os(e)) },
                    ]
                }
        }),
{
    lemma_setup_run_inv(overwrite, termination, pipe_exists, restart, events);
    let start = spec_setup_start(overwrite, termination, pipe_exists, restart);
    if events.len() > 0 && events[0] is PipeCreateFailed {
        if events.len() > 1 {
            let first = events.take(1);
            lemma_setup_trace_prefix(start, events, 1);
            lemma_setup_trace_prefix(start, events, 2);
            lemma_setup_run_inv(overwrite, termination, pipe_exists, restart, first);
            assert(events.take(2).drop_last() =~= first);
            assert(first.drop_last() =~= Seq::<SetupEvent>::empty());
            assert(first.last() == events[0]);
        }
        assert(events.drop_last() =~= Seq::<SetupEvent>::empty());
        assert(events.last() == events[0]);
    }
}

proof fn lemma_setup_trace_prefix(v: SetupView, events: Seq<SetupEvent>, m: int)
    requires
        spec_setup_trace(v, events),
        0 <= m <= events.len(),
    ensures
        spec_setup_trace(v, events.take(m)),
    decreases events.len(),
{
    if m < events.len() {
        lemma_setup_trace_prefix(v, events.drop_last(), m);
        assert(events.drop_last().take(m) =~= events.take(m));
    } else {
        assert(events.take(m) =~= events);
    }
}

proof fn lemma_setup_run_prefix(v: SetupView, events: Seq<SetupEvent>, k: int)
    requires
        0 <= k < events.len(),
    ensures
        spec_setup_run(v, events).1.len() == events.len(),
        spec_setup_run(v, events).1[k] == spec_setup_step(
            spec_setup_run(v, events.take(k)).0,
            events[k],
        ).1,
        spec_setup_run(v, events.take(k + 1)).0 == spec_setup_step(
            spec_setup_run(v, events.take(k)).0,
            events[k],
        ).0,
    decreases events.len(),
{
    let prefix = events.drop_last();
    if k < prefix.len() {
        lemma_setup_run_prefix(v, prefix, k);
        assert(prefix.take(k) =~= events.take(k));
        assert(prefix.take(k + 1) =~= events.take(k + 1));
        assert(prefix[k] == events[k]);
    } else {
        if prefix.len() > 0 {
            lemma_setup_run_prefix(v, prefix, 0);
        }
        assert(events.take(k) =~= prefix);
        assert(events.take(k + 1) =~= events);
        assert(events.take(k + 1).drop_last() =~= prefix);
    }
}

/// What the installation answers to each observation, in terms of the
/// observations alone. After the pipe is created it is made non-blocking;
/// once it is, the first handled signal is installed; a failed call fails
/// the installation with its `errno` and restores what was replaced before
/// it; a replaced disposition that was not the default one, when
/// overwriting is not allowed, fails it with `HandlerExists` and restores
/// what was replaced including it; otherwise each installed signal is
/// followed by the next one, and the last by success. Every signal is
/// installed with `SA_RESTART` where supported and an empty mask.
pub proof fn lemma_setup_answers(
    overwrite: bool,
    termination: bool,
    pipe_exists: bool,
    restart: bool,
    events: Seq<SetupEvent>,
    k: int,
)
    requires
        spec_setup_trace(spec_setup_start(overwrite, termination, pipe_exists, restart), events),
        0 <= k < events.len(),
    ensures
        ({
            let a = spec_setup_run(
                spec_setup_start(overwrite, termination, pipe_exists, restart),
                events,
            ).1[k];
            let signals = spec_handled_signals(termination);
            let disposition = spec_handler_disposition(restart);
            let before = spec_replaced_count(events.take(k));
            &&& events[k] == SetupEvent::PipeCreated ==> a == SetupAction::MakePipeNonBlocking
            &&& events[k] == SetupEvent::PipeReady ==> a == SetupAction::Install(
                signals[0],
                disposition,
            )
            &&& events[k] matches SetupEvent::PipeCreateFailed(e) ==> a == SetupAction::Fail {
                    restore: 0,
                    error: Error::System(SystemError::Os(e)),
                }
            &&& events[k] matches SetupEvent::PipeFailed(e) ==> a == SetupAction::Fail {
                    restore: 0,
                    error: Error::System(SystemError::Os(e)),
                }
            &&& events[k] matches SetupEvent::InstallFailed(e) ==> a == SetupAction::Fail {
                    restore: before as usize,
                    error: Error::System(SystemError::Os(e)),
                }
            &&& events[k] matches SetupEvent::Installed { previous_was_default: d } ==> {
                    &&& !overwrite && !d ==> a == SetupAction::Fail {
                        restore: (before + 1) as usize,
                        error: Error::System(SystemError::HandlerExists),
                    }
                    &&& (overwrite || d) && before + 1 < signals.len() ==> a
                        == SetupAction::Install(signals[before + 1int], disposition)
                    &&& (overwrite || d) && before + 1 >= signals.len() ==> a
                        == SetupAction::Succeed
                }
        }),
{
    let start = spec_setup_start(overwrite, termination, pipe_exists, restart);
    lemma_setup_run_prefix(start, events, k);
    lemma_setup_trace_prefix(start, events, k + 1);
    lemma_setup_trace_prefix(start, events, k);
    let before_events = events.take(k + 1);
    assert(before_events.drop_last() =~= events.take(k));
    assert(before_events.last() == events[k]);
    lemma_setup_run_inv(overwrite, termination, pipe_exists, restart, events.take(k));
}

/// What one step of an installation answers, from any state and for any
/// observation it accepts: a created pipe is followed by making it
/// non-blocking, never by a failure; a ready pipe by the installation of the
/// first handled signal; a failed call by a failure with its `errno` that
/// restores what was replaced before it; a replaced disposition that was not
/// the default one, when overwriting is not allowed, by `HandlerExists` and the
/// restoration of what was replaced including it; any other replaced
/// disposition by the next signal's installation, or by success after the
/// last. Every step keeps the installation's settings, and only a failure
/// or success finishes it.
pub proof fn lemma_setup_step_answers(v: SetupView, event: SetupEvent)
    requires
        spec_setup_wf(v),
        spec_setup_accepts(v, event),
    ensures
        ({
            let (w, a) = spec_setup_step(v, event);
            let signals = spec_handled_signals(v.termination);
            let disposition = spec_handler_disposition(v.restart);
            &&& w.overwrite == v.overwrite && w.termination == v.termination && w.restart
                == v.restart
            &&& spec_setup_wf(w)
            &&& event == SetupEvent::PipeCreated ==> w.stage == SetupStage::PreparePipe && a
                == SetupAction::MakePipeNonBlocking
            &&& event == SetupEvent::PipeReady ==> w.stage == SetupStage::Installing(0) && a
                == SetupAction::Install(signals[0], disposition)
            &&& event matches SetupEvent::PipeCreateFailed(e) ==> w.stage == SetupStage::Finished
                && a == (SetupAction::Fail { restore: 0, error: Error::System(SystemError::Os(e)) })
            &&& event matches SetupEvent::PipeFailed(e) ==> w.stage == SetupStage::Finished && a
                == (SetupAction::Fail { restore: 0, error: Error::System(SystemError::Os(e)) })
            &&& event matches SetupEvent::InstallFailed(e) ==> (v.stage matches SetupStage::Installing(
                i,
            ) && w.stage == SetupStage::Finished && a == (SetupAction::Fail {
                restore: i,
                error: Error::System(SystemError::Os(e)),
            }))
            &&& event matches SetupEvent::Installed { previous_was_default: d } ==> (
            v.stage matches SetupStage::Installing(i) && {
                &&& !v.overwrite && !d ==> w.stage == SetupStage::Finished && a == (
                SetupAction::Fail {
                    restore: (i + 1) as usize,
                    error: Error::System(SystemError::HandlerExists),
                })
                &&& (v.overwrite || d) && i + 1 < signals.len() ==> w.stage
                    == SetupStage::Installing((i + 1) as usize) && a == SetupAction::Install(
                    signals[i + 1],
                    disposition,
                )
                &&& (v.overwrite || d) && i + 1 >= signals.len() ==> w.stage
                    == SetupStage::Finished && a == SetupAction::Succeed
            })
            &&& a is Fail ==> {
                ||| event is PipeCreateFailed
                ||| event is PipeFailed
                ||| event is InstallFailed
                ||| !v.overwrite && event == SetupEvent::Installed { previous_was_default: false }
            }
        }),
{
    lemma_handled_signals_shape(v.termination);
    match event {
        SetupEvent::Installed { previous_was_default } => {
            assert(event == SetupEvent::Installed { previous_was_default });
        },
        _ => {},
    }
}

/// An installation fails only for a reason: every failure answers a failed
/// call, or a replaced disposition that was not the default one when
/// overwriting is not allowed. So when no call fails and overwriting is
/// allowed or every replaced disposition was the default one, no action of
/// the installation is a failure.
pub proof fn lemma_setup_fails_only_for_a_reason(
    overwrite: bool,
    termination: bool,
    pipe_exists: bool,
    restart: bool,
    events: Seq<SetupEvent>,
)
    requires
        spec_setup_trace(spec_setup_start(overwrite, termination, pipe_exists, restart), events),
    ensures
        ({
            let acts = spec_setup_run(
                spec_setup_start(overwrite, termination, pipe_exists, restart),
                events,
            ).1;
            &&& forall|k: int|
                0 <= k < events.len() && (#[trigger] acts[k] is Fail) ==> {
                    ||| events[k] is PipeCreateFailed
                    ||| events[k] is PipeFailed
                    ||| events[k] is InstallFailed
                    ||| !overwrite && events[k] == SetupEvent::Installed {
                        previous_was_default: false,
                    }
                }
            &&& spec_no_failure(events) && (overwrite || spec_only_defaults_replaced(events))
                ==> forall|k: int| 0 <= k < events.len() ==> !(#[trigger] acts[k] is Fail)
        }),
{
    let acts = spec_setup_run(
        spec_setup_start(overwrite, termination, pipe_exists, restart),
        events,
    ).1;
    assert forall|k: int|
        0 <= k < events.len() && (#[trigger] acts[k] is Fail) implies {
            ||| events[k] is PipeCreateFailed
            ||| events[k] is PipeFailed
            ||| events[k] is InstallFailed
            ||| !overwrite && events[k] == SetupEvent::Installed { previous_was_default: false }
        } by {
        lemma_setup_answers(overwrite, termination, pipe_exists, restart, events, k);
        match events[k] {
            SetupEvent::Installed { previous_was_default } => {
                assert(events[k] == SetupEvent::Installed { previous_was_default });
            },
            _ => {},
        }
    }
    if spec_no_failure(events) && (overwrite || spec_only_defaults_replaced(events)) {
        assert forall|k: int| 0 <= k < events.len() implies !(#[trigger] acts[k] is Fail) by {
            lemma_setup_answers(overwrite, termination, pipe_exists, restart, events, k);
            match events[k] {
                SetupEvent::Installed { previous_was_default } => {
                    assert(events[k] == SetupEvent::Installed { previous_was_default });
                },
                SetupEvent::PipeCreateFailed(e) => {
                    assert(events[k] is PipeCreateFailed);
                },
                SetupEvent::PipeFailed(e) => {
                    assert(events[k] is PipeFailed);
                },
                SetupEvent::InstallFailed(e) => {
                    assert(events[k] is InstallFailed);
                },
                _ => {},
            }
        }
    }
}

/// The wake-up pipe is created at most once per installation, only when the
/// process holds none, and then with close-on-exec: no step ever asks for it.
pub proof fn lemma_pipe_created_only_when_missing(
    overwrite: bool,
    termination: bool,
    pipe_exists: bool,
    restart: bool,
    events: Seq<SetupEvent>,
)
    requires
        spec_setup_trace(spec_setup_start(overwrite, termination, pipe_exists, restart), events),
    ensures
        spec_setup_first_action(pipe_exists) is CreatePipe <==> !pipe_exists,
        spec_setup_first_action(pipe_exists) matches SetupAction::CreatePipe { close_on_exec }
            ==> close_on_exec,
        forall|k: int|
            0 <= k < events.len() ==> !(#[trigger] spec_setup_run(
                spec_setup_start(overwrite, termination, pipe_exists, restart),
                events,
            ).1[k] is CreatePipe),
{
    lemma_setup_run_inv(overwrite, termination, pipe_exists, restart, events);
}

/// An installation succeeds only when every handled signal got the handler,
/// no step failed and, unless overwriting was allowed, every replaced
/// disposition was the default one.
pub proof fn lemma_setup_succeeds_only_when_all_installed(
    overwrite: bool,
    termination: bool,
    pipe_exists: bool,
    restart: bool,
    events: Seq<SetupEvent>,
)
    requires
        spec_setup_trace(spec_setup_start(overwrite, termination, pipe_exists, restart), events),
        events.len() > 0,
        spec_setup_run(spec_setup_start(overwrite, termination, pipe_exists, restart), events).1.last()
            == SetupAction::Succeed,
    ensures
        spec_replaced_count(events) == spec_handled_signals(termination).len(),
        spec_no_failure(events),
        overwrite || spec_only_defaults_replaced(events),
{
    lemma_setup_run_inv(overwrite, termination, pipe_exists, restart, events);
}

/// Every installation is over after at most one step per handled signal,
/// plus the creation of the pipe when there was none and the preparation of
/// the pipe: no longer sequence of events is accepted.
pub proof fn lemma_setup_is_bounded(
    overwrite: bool,
    termination: bool,
    pipe_exists: bool,
    restart: bool,
    events: Seq<SetupEvent>,
)
    requires
        spec_setup_trace(spec_setup_start(overwrite, termination, pipe_exists, restart), events),
    ensures
        events.len() <= spec_handled_signals(termination).len() + 1 + spec_pipe_offset(
            pipe_exists,
        ),
{
    lemma_setup_run_inv(overwrite, termination, pipe_exists, restart, events);
}

/// The events of an installation in which nothing fails: the pipe is
/// created when there was none, it is made non-blocking, then each
/// `sigaction` succeeds, the `k`-th one replacing a default disposition
/// exactly when `defaults[k]`.
pub open spec fn spec_clean_setup_events(pipe_exists: bool, defaults: Seq<bool>) -> Seq<SetupEvent> {
    (if pipe_exists {
        seq![]
    } else {
        seq![SetupEvent::PipeCreated]
    }) + seq![SetupEvent::PipeReady] + Seq::new(
        defaults.len(),
        |k: int| SetupEvent::Installed { previous_was_default: defaults[k] },
    )
}

proof fn lemma_clean_setup_prefix(
    overwrite: bool,
    termination: bool,
    pipe_exists: bool,
    restart: bool,
    defaults: Seq<bool>,
    m: nat,
)
    requires
        defaults.len() == spec_handled_signals(termination).len(),
        overwrite || forall|k: int| 0 <= k < defaults.len() ==> defaults[k],
        m <= defaults.len() + 1 + spec_pipe_offset(pipe_exists),
    ensures
        ({
            let off = spec_pipe_offset(pipe_exists);
            let events = spec_clean_setup_events(pipe_exists, defaults).take(m as int);
            let run = spec_setup_run(spec_setup_start(overwrite, termination, pipe_exists, restart), events);
            &&& spec_setup_trace(spec_setup_start(overwrite, termination, pipe_exists, restart), events)
            &&& run.0.overwrite == overwrite && run.0.termination == termination
            &&& m < off ==> run.0.stage == SetupStage::CreatingPipe
            &&& m == off ==> run.0.stage == SetupStage::PreparePipe
            &&& off < m < defaults.len() + 1 + off ==> run.0.stage == SetupStage::Installing(
                (m - 1 - off) as usize,
            )
            &&& m == defaults.len() + 1 + off ==> run.0.stage == SetupStage::Finished
                && run.1.last() == SetupAction::Succeed
        }),
    decreases m,
{
    let off = spec_pipe_offset(pipe_exists);
    let start = spec_setup_start(overwrite, termination, pipe_exists, restart);
    let all = spec_clean_setup_events(pipe_exists, defaults);
    let events = all.take(m as int);
    assert(all.len() == defaults.len() + 1 + off);
    if m == 0 {
        let empty = Seq::<SetupEvent>::empty();
        assert(spec_setup_trace(start, empty));
        assert(spec_setup_run(start, empty).0 == start);
        assert(events =~= empty);
    } else {
        lemma_clean_setup_prefix(overwrite, termination, pipe_exists, restart, defaults, (m - 1) as nat);
        let prefix = all.take(m - 1);
        assert(events.drop_last() =~= prefix);
        assert(events.last() == all[m - 1]);
        if m - 1 < off {
            assert(all[m - 1] == SetupEvent::PipeCreated);
        } else if m - 1 == off {
            assert(all[m - 1] == SetupEvent::PipeReady);
        } else {
            assert(all[m - 1] == SetupEvent::Installed { previous_was_default: defaults[m - 2 - off] });
        }
        let pv = spec_setup_run(start, prefix).0;
        assert(spec_setup_trace(start, prefix));
        assert(spec_setup_accepts(pv, events.last()));
        assert(spec_setup_run(start, events).0 == spec_setup_step(pv, events.last()).0);
    }
}

/// An installation in which nothing fails succeeds, provided overwriting is
/// allowed or every replaced disposition was the default one.
pub proof fn lemma_setup_succeeds_when_nothing_fails(
    overwrite: bool,
    termination: bool,
    pipe_exists: bool,
    restart: bool,
    defaults: Seq<bool>,
)
    requires
        defaults.len() == spec_handled_signals(termination).len(),
        overwrite || forall|k: int| 0 <= k < defaults.len() ==> defaults[k],
    ensures
        spec_setup_trace(
            spec_setup_start(overwrite, termination, pipe_exists, restart),
            spec_clean_setup_events(pipe_exists, defaults),
        ),
        spec_setup_run(
            spec_setup_start(overwrite, termination, pipe_exists, restart),
            spec_clean_setup_events(pipe_exists, defaults),
        ).1.last() == SetupAction::Succeed,
{
    let off = spec_pipe_offset(pipe_exists);
    lemma_clean_setup_prefix(overwrite, termination, pipe_exists, restart, defaults, (defaults.len() + 1 + off) as nat);
    let all = spec_clean_setup_events(pipe_exists, defaults);
    assert(all.take(defaults.len() + 1 + off) =~= all);
}

/// One end of the wake-up pipe.
#[derive(Debug, Clone, Copy, PartialEq, Eq, Structural)]
pub enum PipeEnd {
    /// The end the watcher reads from.
    Read,
    /// The end the signal handler writes to.
    Write,
}

/// A flag set with `fcntl` on one end of a freshly created pipe.
#[derive(Debug, Clone, Copy, PartialEq, Eq, Structural)]
pub enum PipeFlagOp {
    /// `F_SETFD` with `FD_CLOEXEC`.
    CloseOnExec(PipeEnd),
    /// `F_SETFL` with `O_NONBLOCK`.
    NonBlocking(PipeEnd),
}

/// The `fcntl` calls that emulate `pipe2` with the requested flags, in order:
/// close-on-exec on both ends first, then non-blocking on both ends.
pub open spec fn spec_pipe_flag_ops(cloexec: bool, nonblock: bool) -> Seq<PipeFlagOp> {
    (if cloexec {
        seq![PipeFlagOp::CloseOnExec(PipeEnd::Read), PipeFlagOp::CloseOnExec(PipeEnd::Write)]
    } else {
        seq![]
    }) + (if nonblock {
        seq![PipeFlagOp::NonBlocking(PipeEnd::Read), PipeFlagOp::NonBlocking(PipeEnd::Write)]
    } else {
        seq![]
    })
}

fn pipe_flag_op_count(cloexec: bool, nonblock: bool) -> (r: usize)
    ensures
        r == spec_pipe_flag_ops(cloexec, nonblock).len(),
{
    (if cloexec {
        2
    } else {
        0
    }) + (if nonblock {
        2
    } else {
        0
    })
}

fn nth_pipe_flag_op(cloexec: bool, nonblock: bool, i: usize) -> (r: PipeFlagOp)
    requires
        i < spec_pipe_flag_ops(cloexec, nonblock).len(),
    ensures
        r == spec_pipe_flag_ops(cloexec, nonblock)[i as int],
{
    let end = if i % 2 == 0 {
        PipeEnd::Read
    } else {
        PipeEnd::Write
    };
    if cloexec && i < 2 {
        PipeFlagOp::CloseOnExec(end)
    } else {
        PipeFlagOp::NonBlocking(end)
    }
}

/// Where the creation of a pipe with flags stands.
#[derive(Debug, Clone, Copy, PartialEq, Eq, Structural)]
pub enum PipeStage {
    /// Waiting for the plain pipe to be created.
    Creating,
    /// Waiting for the flag operation at this index to be applied.
    Applying(usize),
    /// The creation is over.
    Finished,
}

/// What the embedding program observed.
#[derive(Debug, Clone, Copy, PartialEq, Eq, Structural)]
pub enum PipeEvent {
    /// `pipe` created both ends.
    Created,
    /// `pipe` failed with this `errno`.
    CreateFailed(i32),
    /// The requested `fcntl` succeeded.
    Applied,
    /// The requested `fcntl` failed with this `errno`.
    ApplyFailed(i32),
}

/// What the embedding program does next.
#[derive(Debug, Clone, Copy, PartialEq, Eq, Structural)]
pub enum PipeAction {
    /// Create a plain pipe.
    Create,
    /// Apply this flag with `fcntl`.
    Apply(PipeFlagOp),
    /// Return the pipe.
    Succeed,
    /// Close both ends when `close`, then report this `errno`.
    Fail { close: bool, errno: i32 },
}

/// The abstract state of a [`PipeSetup`].
#[derive(Debug, Clone, Copy, PartialEq, Eq, Structural)]
pub struct PipeSetupView {
    /// Close-on-exec was requested.
    pub cloexec: bool,
    /// Non-blocking mode was requested.
    pub nonblock: bool,
    /// Where the creation stands.
    pub stage: PipeStage,
}

/// The creation of a pipe with flags on systems without `pipe2`.
pub struct PipeSetup {
    cloexec: bool,
    nonblock: bool,
    stage: PipeStage,
}

impl View for PipeSetup {
    type V = PipeSetupView;

    closed spec fn view(&self) -> PipeSetupView {
        PipeSetupView { cloexec: self.cloexec, nonblock: self.nonblock, stage: self.stage }
    }
}

/// A state that some creation can reach.
pub open spec fn spec_pipe_wf(v: PipeSetupView) -> bool {
    v.stage matches PipeStage::Applying(i) ==> i < spec_pipe_flag_ops(v.cloexec, v.nonblock).len()
}

/// Whether `event` answers the action that led to `v`.
pub open spec fn spec_pipe_accepts(v: PipeSetupView, event: PipeEvent) -> bool {
    match (v.stage, event) {
        (PipeStage::Creating, PipeEvent::Created) => true,
        (PipeStage::Creating, PipeEvent::CreateFailed(_)) => true,
        (PipeStage::Applying(_), PipeEvent::Applied) => true,
        (PipeStage::Applying(_), PipeEvent::ApplyFailed(_)) => true,
        _ => false,
    }
}

/// The state a creation moves to, and the action it asks for, after `Created`
/// or `Applied` when `next` flag operations have been done.
pub open spec fn spec_pipe_advance(v: PipeSetupView, next: int) -> (PipeSetupView, PipeAction) {
    let ops = spec_pipe_flag_ops(v.cloexec, v.nonblock);
    if next < ops.len() {
        (PipeSetupView { stage: PipeStage::Applying(next as usize), ..v }, PipeAction::Apply(ops[next]))
    } else {
        (PipeSetupView { stage: PipeStage::Finished, ..v }, PipeAction::Succeed)
    }
}

/// One step of the creation: the flags are applied in order; the first
/// failure stops it, and when the pipe exists its two ends are closed.
pub open spec fn spec_pipe_step(v: PipeSetupView, event: PipeEvent) -> (PipeSetupView, PipeAction) {
    match (v.stage, event) {
        (PipeStage::Creating, PipeEvent::Created) => spec_pipe_advance(v, 0),
        (PipeStage::Creating, PipeEvent::CreateFailed(e)) => (
            PipeSetupView { stage: PipeStage::Finished, ..v },
            PipeAction::Fail { close: false, errno: e },
        ),
        (PipeStage::Applying(i), PipeEvent::Applied) => spec_pipe_advance(v, i + 1),
        (PipeStage::Applying(_), PipeEvent::ApplyFailed(e)) => (
            PipeSetupView { stage: PipeStage::Finished, ..v },
            PipeAction::Fail { close: true, errno: e },
        ),
        _ => (v, PipeAction::Succeed),
    }
}

/// Creates a pipe with close-on-exec and non-blocking ends as requested,
/// where the system has no `pipe2`: starts the creation, whose first action
/// is to create a plain pipe.
pub fn pipe2(cloexec: bool, nonblock: bool) -> (r: (PipeSetup, PipeAction))
    ensures
        r.0@ == (PipeSetupView { cloexec, nonblock, stage: PipeStage::Creating }),
        r.1 == PipeAction::Create,
{
    (PipeSetup { cloexec, nonblock, stage: PipeStage::Creating }, PipeAction::Create)
}

impl PipeSetup {
    #[verifier::type_invariant]
    closed spec fn inv(self) -> bool {
        spec_pipe_wf(self@)
    }

    /// Where the creation stands.
    pub fn stage(&self) -> (r: PipeStage)
        ensures
            r == self@.stage,
    {
        self.stage
    }

    fn advance(&mut self, next: usize) -> (r: PipeAction)
        requires
            next <= spec_pipe_flag_ops(old(self)@.cloexec, old(self)@.nonblock).len(),
        ensures
            (final(self)@, r) == spec_pipe_advance(old(self)@, next as int),
    {
        if next < pipe_flag_op_count(self.cloexec, self.nonblock) {
            self.stage = PipeStage::Applying(next);
            PipeAction::Apply(nth_pipe_flag_op(self.cloexec, self.nonblock, next))
        } else {
            self.stage = PipeStage::Finished;
            PipeAction::Succeed
        }
    }

    /// Takes what the embedding program observed and returns the next action.
    pub fn step(&mut self, event: PipeEvent) -> (r: PipeAction)
        requires
            spec_pipe_accepts(old(self)@, event),
        ensures
            (final(self)@, r) == spec_pipe_step(old(self)@, event),
    {
        proof {
            use_type_invariant(&*self);
        }
        match (self.stage, event) {
            (PipeStage::Applying(i), PipeEvent::Applied) => self.advance(i + 1),
            (PipeStage::Applying(_), PipeEvent::ApplyFailed(e)) => {
                self.stage = PipeStage::Finished;
                PipeAction::Fail { close: true, errno: e }
            },
            (_, PipeEvent::CreateFailed(e)) => {
                self.stage = PipeStage::Finished;
                PipeAction::Fail { close: false, errno: e }
            },
            (_, _) => self.advance(0),
        }
    }
}

/// The state reached, and the actions returned, when the creation started in
/// `v` is given `events` one after the other.
pub open spec fn spec_pipe_run(v: PipeSetupView, events: Seq<PipeEvent>) -> (PipeSetupView, Seq<PipeAction>)
    decreases events.len(),
{
    if events.len() == 0 {
        (v, seq![])
    } else {
        let prev = spec_pipe_run(v, events.drop_last());
        let next = spec_pipe_step(prev.0, events.last());
        (next.0, prev.1.push(next.1))
    }
}

/// Every event of `events` answers the action that preceded it.
pub open spec fn spec_pipe_trace(v: PipeSetupView, events: Seq<PipeEvent>) -> bool
    decreases events.len(),
{
    events.len() == 0 || (spec_pipe_trace(v, events.drop_last()) && spec_pipe_accepts(
        spec_pipe_run(v, events.drop_last()).0,
        events.last(),
    ))
}

/// The creation of a pipe with these flags, before anything happened.
pub open spec fn spec_pipe_start(cloexec: bool, nonblock: bool) -> PipeSetupView {
    PipeSetupView { cloexec, nonblock, stage: PipeStage::Creating }
}

proof fn lemma_pipe_run_inv(cloexec: bool, nonblock: bool, events: Seq<PipeEvent>)
    requires
        spec_pipe_trace(spec_pipe_start(cloexec, nonblock), events),
    ensures
        ({
            let (v, acts) = spec_pipe_run(spec_pipe_start(cloexec, nonblock), events);
            let ops = spec_pipe_flag_ops(cloexec, nonblock);
            &&& v.cloexec == cloexec && v.nonblock == nonblock && spec_pipe_wf(v)
            &&& acts.len() == events.len()
            &&& forall|k: int|
                0 <= k < acts.len() ==> (#[trigger] acts[k] matches PipeAction::Apply(op) ==> k
                    < ops.len() && op == ops[k])
            &&& forall|k: int| 1 <= k < events.len() - 1 ==> #[trigger] events[k] == PipeEvent::Applied
            &&& events.len() > 1 ==> events[0] == PipeEvent::Created
            &&& v.stage == PipeStage::Creating ==> events.len() == 0
            &&& v.stage matches PipeStage::Applying(i) ==> events.len() == i + 1 && (i == 0 || events.last() == PipeEvent::Applied)
                && events[0] == PipeEvent::Created
            &&& v.stage == PipeStage::Finished ==> {
                &&& events.len() > 0
                &&& acts.last() is Succeed || acts.last() is Fail
                &&& acts.last() is Succeed ==> events.len() == ops.len() + 1 && events[0]
                    == PipeEvent::Created && (events.len() == 1 || events.last() == PipeEvent::Applied)
                &&& acts.last() matches PipeAction::Fail { close, .. } ==> (close <==> events[0]
                    == PipeEvent::Created)
            }
        }),
    decreases events.len(),
{
    let start = spec_pipe_start(cloexec, nonblock);
    let ops = spec_pipe_flag_ops(cloexec, nonblock);
    if events.len() > 0 {
        let prefix = events.drop_last();
        lemma_pipe_run_inv(cloexec, nonblock, prefix);
        let (pv, pacts) = spec_pipe_run(start, prefix);
        let (v, acts) = spec_pipe_run(start, events);
        assert(acts.drop_last() =~= pacts);
        assert forall|k: int| 0 <= k < prefix.len() implies prefix[k] == events[k] by {}
        assert forall|k: int|
            0 <= k < acts.len() implies (#[trigger] acts[k] matches PipeAction::Apply(op) ==> k
            < ops.len() && op == ops[k]) by {
            if k < pacts.len() {
                assert(acts[k] == pacts[k]);
            }
        }
        assert forall|k: int| 1 <= k < events.len() - 1 implies #[trigger] events[k]
            == PipeEvent::Applied by {
            assert(events[k] == prefix[k]);
            if k == prefix.len() - 1 {
                assert(prefix.last() == prefix[k]);
            }
        }
        if prefix.len() > 0 {
            assert(events[0] == prefix[0]);
        }
    }
}

/// Emulating `pipe2` applies every requested flag, in order, before it
/// returns the pipe, and a failure closes both ends exactly when the pipe
/// had been created, so that nothing leaks and nothing unopened is closed.
pub proof fn lemma_pipe_setup_laws(cloexec: bool, nonblock: bool, events: Seq<PipeEvent>)
    requires
        spec_pipe_trace(spec_pipe_start(cloexec, nonblock), events),
        events.len() > 0,
    ensures
        ({
            let acts = spec_pipe_run(spec_pipe_start(cloexec, nonblock), events).1;
            let ops = spec_pipe_flag_ops(cloexec, nonblock);
            &&& forall|k: int|
                0 <= k < acts.len() ==> (#[trigger] acts[k] matches PipeAction::Apply(op) ==> op
                    == ops[k])
            &&& acts.last() is Succeed ==> {
                &&& events.len() == ops.len() + 1
                &&& events[0] == PipeEvent::Created
                &&& forall|k: int| 1 <= k < events.len() ==> #[trigger] events[k] == PipeEvent::Applied
            }
            &&& acts.last() matches PipeAction::Fail { close, .. } ==> (close <==> events[0]
                == PipeEvent::Created)
        }),
{
    lemma_pipe_run_inv(cloexec, nonblock, events);
    let (v, acts) = spec_pipe_run(spec_pipe_start(cloexec, nonblock), events);
    let prefix = events.drop_last();
    let pv = spec_pipe_run(spec_pipe_start(cloexec, nonblock), prefix).0;
    assert(spec_pipe_accepts(pv, events.last()));
    if acts.last() is Succeed {
        assert forall|k: int| 1 <= k < events.len() implies #[trigger] events[k] == PipeEvent::Applied by {
            if k == events.len() - 1 {
                assert(events.last() == events[k]);
            }
        }
    }
}

/// The wake-up pipe as the watcher sees it: only the signal handler writes
/// to it, one byte per caught signal when the write succeeds.
pub struct PipeCount {
    /// Signals caught by the signal handler.
    pub caught: nat,
    /// Bytes written and not yet read.
    pub buffered: nat,
    /// Waits that ended because a signal arrived.
    pub delivered: nat,
}

/// One thing that happens to the wake-up pipe.
#[derive(Debug, Clone, Copy, PartialEq, Eq, Structural)]
pub enum PipeHappening {
    /// The signal handler caught a signal; its one-byte write succeeded
    /// exactly when `written` (it fails when the pipe is full).
    Caught { written: bool },
    /// The watcher read the pipe into its one-byte buffer, with this result.
    Read(PipeRead),
}

/// Whether `h` can happen: a read returns at most one byte, and never more
/// than the pipe holds.
pub open spec fn spec_pipe_count_enabled(p: PipeCount, h: PipeHappening) -> bool {
    match h {
        PipeHappening::Read(PipeRead::Bytes(n)) => n <= 1 && n <= p.buffered,
        _ => true,
    }
}

/// The pipe after `h`; a wait ends with a signal exactly when
/// [`block_ctrl_c`] says `Signalled`.
pub open spec fn spec_pipe_count_move(p: PipeCount, h: PipeHappening) -> PipeCount {
    match h {
        PipeHappening::Caught { written } => PipeCount {
            caught: p.caught + 1,
            buffered: if written {
                p.buffered + 1
            } else {
                p.buffered
            },
            ..p
        },
        PipeHappening::Read(r) => PipeCount {
            buffered: match r {
                PipeRead::Bytes(n) => (p.buffered - n) as nat,
                _ => p.buffered,
            },
            delivered: if spec_read_step(r) == ReadStep::Signalled {
                p.delivered + 1
            } else {
                p.delivered
            },
            ..p
        },
    }
}

/// The pipe after `hs`, starting empty.
pub open spec fn spec_pipe_count_run(hs: Seq<PipeHappening>) -> PipeCount
    decreases hs.len(),
{
    if hs.len() == 0 {
        PipeCount { caught: 0, buffered: 0, delivered: 0 }
    } else {
        spec_pipe_count_move(spec_pipe_count_run(hs.drop_last()), hs.last())
    }
}

/// Every happening of `hs` could happen when it did.
pub open spec fn spec_pipe_count_trace(hs: Seq<PipeHappening>) -> bool
    decreases hs.len(),
{
    hs.len() == 0 || (spec_pipe_count_trace(hs.drop_last()) && spec_pipe_count_enabled(
        spec_pipe_count_run(hs.drop_last()),
        hs.last(),
    ))
}

/// Waits never end more often than signals are caught: over any execution,
/// the waits that ended with a signal plus the bytes still in the pipe
/// never exceed the signals caught. A read of an empty pipe never ends a
/// wait with a signal, and an interrupted read never ends a wait at all.
pub proof fn lemma_waits_never_outnumber_signals(hs: Seq<PipeHappening>)
    requires
        spec_pipe_count_trace(hs),
    ensures
        spec_pipe_count_run(hs).delivered + spec_pipe_count_run(hs).buffered
            <= spec_pipe_count_run(hs).caught,
        forall|r: PipeRead|
            spec_pipe_count_run(hs).buffered == 0 && spec_pipe_count_enabled(
                spec_pipe_count_run(hs),
                PipeHappening::Read(r),
            ) ==> spec_read_step(r) != ReadStep::Signalled,
        spec_read_step(PipeRead::Interrupted) == ReadStep::Retry,
    decreases hs.len(),
{
    if hs.len() > 0 {
        lemma_waits_never_outnumber_signals(hs.drop_last());
    }
}


/// What a read of the wake-up pipe leads to, for every read result: a
/// signal exactly when one byte was read, another read exactly when the
/// read was interrupted, the read's own `errno` when it failed, and
/// `UnexpectedEof` for any other byte count.
pub proof fn lemma_read_steps(read: PipeRead)
    ensures
        spec_read_step(read) == ReadStep::Signalled <==> read == PipeRead::Bytes(1),
        spec_read_step(read) == ReadStep::Retry <==> read == PipeRead::Interrupted,
        read matches PipeRead::Failed(e) ==> spec_read_step(read) == ReadStep::Failed(
            Error::System(SystemError::Os(e)),
        ),
        read matches PipeRead::Bytes(n) && n != 1 ==> spec_read_step(read) == ReadStep::Failed(
            Error::System(SystemError::UnexpectedEof),
        ),
{
}

/// Ctrl-C is always handled, first; the termination signals are handled,
/// after it, exactly when asked for; no signal is handled twice.
pub proof fn lemma_handled_signals_shape(termination: bool)
    ensures
        spec_handled_signals(termination).len() >= 1,
        spec_handled_signals(termination)[0] == HandledSignal::Interrupt,
        spec_handled_signals(termination).contains(HandledSignal::Terminate) <==> termination,
        spec_handled_signals(termination).contains(HandledSignal::Hangup) <==> termination,
        forall|i: int, j: int|
            0 <= i < j < spec_handled_signals(termination).len() ==> spec_handled_signals(
                termination,
            )[i] != spec_handled_signals(termination)[j],
        termination ==> spec_handled_signals(termination).len() == 3 && spec_handled_signals(
            termination,
        )[1] == HandledSignal::Terminate && spec_handled_signals(termination)[2]
            == HandledSignal::Hangup,
        !termination ==> spec_handled_signals(termination).len() == 1,
{
    let sigs = spec_handled_signals(termination);
    if termination {
        assert(sigs[1] == HandledSignal::Terminate);
        assert(sigs[2] == HandledSignal::Hangup);
    } else {
        assert(sigs =~= seq![HandledSignal::Interrupt]);
        assert(!sigs.contains(HandledSignal::Terminate)) by {
            if sigs.contains(HandledSignal::Terminate) {
                let i = choose|i: int| 0 <= i < sigs.len() && sigs[i] == HandledSignal::Terminate;
            }
        }
        assert(!sigs.contains(HandledSignal::Hangup)) by {
            if sigs.contains(HandledSignal::Hangup) {
                let i = choose|i: int| 0 <= i < sigs.len() && sigs[i] == HandledSignal::Hangup;
            }
        }
    }
}

/// The handler is installed with `SA_RESTART` exactly where the system
/// supports it, and always with an empty mask.
pub proof fn lemma_handler_disposition(restart_supported: bool)
    ensures
        spec_handler_disposition(restart_supported).restart == restart_supported,
        spec_handler_disposition(restart_supported).empty_mask,
{
}

/// An installation starts by creating the wake-up pipe, with close-on-exec,
/// exactly when the process holds none, and otherwise by making the pipe it
/// holds non-blocking.
pub proof fn lemma_setup_first_action(pipe_exists: bool)
    ensures
        pipe_exists ==> spec_setup_first_action(pipe_exists) == SetupAction::MakePipeNonBlocking,
        !pipe_exists ==> spec_setup_first_action(pipe_exists) == (SetupAction::CreatePipe {
            close_on_exec: true,
        }),
        spec_setup_start(true, false, pipe_exists, true).stage == (if pipe_exists {
            SetupStage::PreparePipe
        } else {
            SetupStage::CreatingPipe
        }),
{
}

/// An installation starts from the settings it was given: overwriting,
/// termination signals and `SA_RESTART` support are kept as asked, and the
/// first stage creates the pipe exactly when the process holds none.
pub proof fn lemma_setup_start_state(
    overwrite: bool,
    termination: bool,
    pipe_exists: bool,
    restart: bool,
)
    ensures
        ({
            let v = spec_setup_start(overwrite, termination, pipe_exists, restart);
            &&& v.overwrite == overwrite
            &&& v.termination == termination
            &&& v.restart == restart
            &&& v.stage == (if pipe_exists {
                SetupStage::PreparePipe
            } else {
                SetupStage::CreatingPipe
            })
            &&& spec_setup_wf(v)
        }),
{
}

/// The flags applied when emulating `pipe2`: each requested flag is set on
/// both ends, the read end first, close-on-exec before non-blocking, and no
/// flag that was not requested.
pub proof fn lemma_pipe_flag_ops_shape(cloexec: bool, nonblock: bool)
    ensures
        spec_pipe_flag_ops(cloexec, nonblock).len() == (if cloexec {
            2int
        } else {
            0int
        }) + (if nonblock {
            2int
        } else {
            0int
        }),
        forall|op: PipeFlagOp|
            spec_pipe_flag_ops(cloexec, nonblock).contains(op) ==> (op is CloseOnExec ==> cloexec)
                && (op is NonBlocking ==> nonblock),
        cloexec ==> spec_pipe_flag_ops(cloexec, nonblock)[0] == PipeFlagOp::CloseOnExec(
            PipeEnd::Read,
        ) && spec_pipe_flag_ops(cloexec, nonblock)[1] == PipeFlagOp::CloseOnExec(PipeEnd::Write),
        nonblock ==> {
            let ops = spec_pipe_flag_ops(cloexec, nonblock);
            &&& ops[ops.len() - 2] == PipeFlagOp::NonBlocking(PipeEnd::Read)
            &&& ops[ops.len() - 1] == PipeFlagOp::NonBlocking(PipeEnd::Write)
        },
{
}

/// What the emulation of `pipe2` answers to each observation: a created pipe
/// is followed by the first flag operation, each applied operation by the
/// next, and the last by success; a failed `pipe` fails without closing,
/// a failed `fcntl` fails after closing both ends, each with its `errno`.
pub proof fn lemma_pipe_answers(v: PipeSetupView, event: PipeEvent)
    requires
        spec_pipe_accepts(v, event),
    ensures
        ({
            let ops = spec_pipe_flag_ops(v.cloexec, v.nonblock);
            let a = spec_pipe_step(v, event).1;
            &&& event == PipeEvent::Created ==> (if ops.len() > 0 {
                a == PipeAction::Apply(ops[0])
            } else {
                a == PipeAction::Succeed
            })
            &&& event == PipeEvent::Applied ==> (v.stage matches PipeStage::Applying(i) && (if i
                + 1 < ops.len() {
                a == PipeAction::Apply(ops[i + 1])
            } else {
                a == PipeAction::Succeed
            }))
            &&& event matches PipeEvent::CreateFailed(e) ==> a == (PipeAction::Fail {
                close: false,
                errno: e,
            })
            &&& event matches PipeEvent::ApplyFailed(e) ==> a == (PipeAction::Fail {
                close: true,
                errno: e,
            })
            &&& event is Created || event is Applied ==> !(a is Fail)
        }),
{
}

} // verus!
