use ctrlc2::platform::unix::{
    block_ctrl_c, handled_signals, init_os_handler, pipe2, HandledSignal, PipeAction, PipeEnd,
    PipeEvent, PipeFlagOp, PipeRead, PipeStage, ReadStep, SetupAction, SetupEvent, SetupStage,
};
use ctrlc2::platform::unix::{handler_disposition, HandlerDisposition};
use ctrlc2::platform::windows;

const RESTART: HandlerDisposition = HandlerDisposition { restart: true, empty_mask: true };
use ctrlc2::platform::windows::{ConsoleSetupAction, ConsoleSetupEvent, ConsoleSetupStage, WaitOutcome};
use ctrlc2::{Error, SystemError};

#[test]
fn read_of_one_byte_means_signal() {
    assert_eq!(block_ctrl_c(PipeRead::Bytes(1)), ReadStep::Signalled);
}

#[test]
fn read_of_other_length_is_unexpected_eof() {
    let eof = ReadStep::Failed(Error::System(SystemError::UnexpectedEof));
    assert_eq!(block_ctrl_c(PipeRead::Bytes(0)), eof);
    assert_eq!(block_ctrl_c(PipeRead::Bytes(2)), eof);
}

#[test]
fn interrupted_read_is_retried() {
    assert_eq!(block_ctrl_c(PipeRead::Interrupted), ReadStep::Retry);
}

#[test]
fn failed_read_reports_errno() {
    assert_eq!(
        block_ctrl_c(PipeRead::Failed(9)),
        ReadStep::Failed(Error::System(SystemError::Os(9)))
    );
}

#[test]
fn handled_signals_in_order() {
    assert_eq!(handled_signals(false), vec![HandledSignal::Interrupt]);
    assert_eq!(
        handled_signals(true),
        vec![HandledSignal::Interrupt, HandledSignal::Terminate, HandledSignal::Hangup]
    );
}

#[test]
fn setup_ctrl_c_only_succeeds() {
    let (mut s, a) = init_os_handler(true, false, true, true);
    assert_eq!(a, SetupAction::MakePipeNonBlocking);
    assert_eq!(s.stage(), SetupStage::PreparePipe);
    assert_eq!(s.step(SetupEvent::PipeReady), SetupAction::Install(HandledSignal::Interrupt, RESTART));
    assert_eq!(s.stage(), SetupStage::Installing(0));
    assert_eq!(
        s.step(SetupEvent::Installed { previous_was_default: false }),
        SetupAction::Succeed
    );
    assert_eq!(s.stage(), SetupStage::Finished);
}

#[test]
fn setup_creates_missing_pipe_with_close_on_exec() {
    let (mut s, a) = init_os_handler(true, false, false, true);
    assert_eq!(a, SetupAction::CreatePipe { close_on_exec: true });
    assert_eq!(s.stage(), SetupStage::CreatingPipe);
    assert_eq!(s.step(SetupEvent::PipeCreated), SetupAction::MakePipeNonBlocking);
    assert_eq!(s.stage(), SetupStage::PreparePipe);
    assert_eq!(s.step(SetupEvent::PipeReady), SetupAction::Install(HandledSignal::Interrupt, RESTART));
    assert_eq!(
        s.step(SetupEvent::Installed { previous_was_default: true }),
        SetupAction::Succeed
    );
}

#[test]
fn setup_pipe_creation_failure_is_an_error() {
    let (mut s, _) = init_os_handler(false, true, false, true);
    assert_eq!(
        s.step(SetupEvent::PipeCreateFailed(24)),
        SetupAction::Fail { restore: 0, error: Error::System(SystemError::Os(24)) }
    );
    assert_eq!(s.stage(), SetupStage::Finished);
}

#[test]
fn setup_pipe_failure_restores_nothing() {
    let (mut s, _) = init_os_handler(true, true, true, true);
    assert_eq!(
        s.step(SetupEvent::PipeFailed(13)),
        SetupAction::Fail { restore: 0, error: Error::System(SystemError::Os(13)) }
    );
}

#[test]
fn setup_without_overwrite_refuses_existing_handler() {
    let (mut s, _) = init_os_handler(false, false, true, true);
    s.step(SetupEvent::PipeReady);
    assert_eq!(
        s.step(SetupEvent::Installed { previous_was_default: false }),
        SetupAction::Fail { restore: 1, error: Error::System(SystemError::HandlerExists) }
    );
}

#[test]
fn setup_without_overwrite_accepts_default_dispositions() {
    let (mut s, _) = init_os_handler(false, true, true, true);
    assert_eq!(s.step(SetupEvent::PipeReady), SetupAction::Install(HandledSignal::Interrupt, RESTART));
    assert_eq!(
        s.step(SetupEvent::Installed { previous_was_default: true }),
        SetupAction::Install(HandledSignal::Terminate, RESTART)
    );
    assert_eq!(
        s.step(SetupEvent::Installed { previous_was_default: true }),
        SetupAction::Install(HandledSignal::Hangup, RESTART)
    );
    assert_eq!(
        s.step(SetupEvent::Installed { previous_was_default: true }),
        SetupAction::Succeed
    );
}

#[test]
fn setup_failure_on_second_signal_restores_the_first() {
    let (mut s, _) = init_os_handler(true, true, true, true);
    s.step(SetupEvent::PipeReady);
    s.step(SetupEvent::Installed { previous_was_default: true });
    assert_eq!(
        s.step(SetupEvent::InstallFailed(22)),
        SetupAction::Fail { restore: 1, error: Error::System(SystemError::Os(22)) }
    );
}

#[test]
fn setup_existing_handler_on_last_signal_restores_all() {
    let (mut s, _) = init_os_handler(false, true, true, true);
    s.step(SetupEvent::PipeReady);
    s.step(SetupEvent::Installed { previous_was_default: true });
    s.step(SetupEvent::Installed { previous_was_default: true });
    assert_eq!(
        s.step(SetupEvent::Installed { previous_was_default: false }),
        SetupAction::Fail { restore: 3, error: Error::System(SystemError::HandlerExists) }
    );
    assert_eq!(s.signals().len(), 3);
}

#[test]
fn setup_first_install_failure_restores_nothing() {
    let (mut s, _) = init_os_handler(true, false, true, true);
    s.step(SetupEvent::PipeReady);
    assert_eq!(
        s.step(SetupEvent::InstallFailed(1)),
        SetupAction::Fail { restore: 0, error: Error::System(SystemError::Os(1)) }
    );
}

#[test]
fn pipe_with_close_on_exec_only() {
    let (mut p, a) = pipe2(true, false);
    assert_eq!(a, PipeAction::Create);
    assert_eq!(p.step(PipeEvent::Created), PipeAction::Apply(PipeFlagOp::CloseOnExec(PipeEnd::Read)));
    assert_eq!(p.step(PipeEvent::Applied), PipeAction::Apply(PipeFlagOp::CloseOnExec(PipeEnd::Write)));
    assert_eq!(p.step(PipeEvent::Applied), PipeAction::Succeed);
    assert_eq!(p.stage(), PipeStage::Finished);
}

#[test]
fn pipe_with_both_flags_in_order() {
    let (mut p, _) = pipe2(true, true);
    let mut ops = Vec::new();
    let mut a = p.step(PipeEvent::Created);
    while let PipeAction::Apply(op) = a {
        ops.push(op);
        a = p.step(PipeEvent::Applied);
    }
    assert_eq!(a, PipeAction::Succeed);
    assert_eq!(
        ops,
        vec![
            PipeFlagOp::CloseOnExec(PipeEnd::Read),
            PipeFlagOp::CloseOnExec(PipeEnd::Write),
            PipeFlagOp::NonBlocking(PipeEnd::Read),
            PipeFlagOp::NonBlocking(PipeEnd::Write),
        ]
    );
}

#[test]
fn pipe_without_flags_succeeds_at_once() {
    let (mut p, _) = pipe2(false, false);
    assert_eq!(p.step(PipeEvent::Created), PipeAction::Succeed);
}

#[test]
fn pipe_failures_close_only_created_pipes() {
    let (mut p, _) = pipe2(true, false);
    assert_eq!(p.step(PipeEvent::CreateFailed(24)), PipeAction::Fail { close: false, errno: 24 });
    let (mut p, _) = pipe2(false, true);
    assert_eq!(p.step(PipeEvent::Created), PipeAction::Apply(PipeFlagOp::NonBlocking(PipeEnd::Read)));
    assert_eq!(p.step(PipeEvent::ApplyFailed(9)), PipeAction::Fail { close: true, errno: 9 });
}

#[test]
fn windows_wait_results() {
    assert_eq!(windows::block_ctrl_c(0), WaitOutcome::Signalled);
    assert_eq!(windows::block_ctrl_c(0xFFFF_FFFF), WaitOutcome::LastOsError);
    assert_eq!(
        windows::block_ctrl_c(0x80),
        WaitOutcome::Failed(Error::System(SystemError::UnexpectedWaitResult(0x80)))
    );
    assert_eq!(
        windows::block_ctrl_c(0x102),
        WaitOutcome::Failed(Error::System(SystemError::UnexpectedWaitResult(0x102)))
    );
}

#[test]
fn windows_console_setup_success() {
    let (mut s, a) = windows::init_os_handler(true);
    assert_eq!(a, ConsoleSetupAction::CreateSemaphore { initial: 0, maximum: windows::MAX_SEM_COUNT });
    assert_eq!(windows::MAX_SEM_COUNT, 255);
    assert_eq!(s.stage(), ConsoleSetupStage::CreatingSemaphore);
    assert_eq!(s.step(ConsoleSetupEvent::SemaphoreCreated(true)), ConsoleSetupAction::SetConsoleHandler);
    assert_eq!(s.step(ConsoleSetupEvent::HandlerSet(true)), ConsoleSetupAction::Succeed);
    assert_eq!(s.stage(), ConsoleSetupStage::Finished);
}

#[test]
fn windows_console_setup_failures() {
    let (mut s, _) = windows::init_os_handler(false);
    assert_eq!(
        s.step(ConsoleSetupEvent::SemaphoreCreated(false)),
        ConsoleSetupAction::Fail { close_semaphore: false }
    );
    let (mut s, _) = windows::init_os_handler(false);
    s.step(ConsoleSetupEvent::SemaphoreCreated(true));
    assert_eq!(
        s.step(ConsoleSetupEvent::HandlerSet(false)),
        ConsoleSetupAction::Fail { close_semaphore: true }
    );
}

#[test]
fn handler_installed_with_restart_and_empty_mask() {
    assert_eq!(handler_disposition(true), HandlerDisposition { restart: true, empty_mask: true });
    assert_eq!(handler_disposition(false), HandlerDisposition { restart: false, empty_mask: true });
    let (mut s, _) = init_os_handler(true, false, true, false);
    assert_eq!(
        s.step(SetupEvent::PipeReady),
        SetupAction::Install(
            HandledSignal::Interrupt,
            HandlerDisposition { restart: false, empty_mask: true }
        )
    );
}
