use ctrlc2::watcher::{
    set_handler_inner, watcher_thread_name, SignalWatcher, StartAction, StartEvent, StartStage,
    WatchAction, WatchEvent, WatchStage,
};
use ctrlc2::{Error, SystemError};

#[test]
fn watcher_starts_by_waiting() {
    let (w, a) = SignalWatcher::new();
    assert_eq!(a, WatchAction::WaitForSignal);
    assert_eq!(w.stage(), WatchStage::Waiting);
}

#[test]
fn watcher_calls_handler_per_signal_until_it_agrees() {
    let (mut w, _) = SignalWatcher::new();
    let mut calls = 0;
    let answers = [false, false, true];
    let mut i = 0;
    let mut action = w.step(WatchEvent::Woken);
    loop {
        match action {
            WatchAction::CallHandler => {
                calls += 1;
                let handled = answers[i];
                i += 1;
                action = w.step(WatchEvent::HandlerReturned(handled));
            }
            WatchAction::WaitForSignal => action = w.step(WatchEvent::Woken),
            WatchAction::Exit => break,
            WatchAction::Abort(_) => panic!("unexpected abort"),
        }
    }
    assert_eq!(calls, 3);
    assert_eq!(w.stage(), WatchStage::Stopped);
}

#[test]
fn watcher_aborts_with_the_wait_error() {
    let (mut w, _) = SignalWatcher::new();
    let e = Error::System(SystemError::UnexpectedEof);
    assert_eq!(w.step(WatchEvent::WaitFailed(e)), WatchAction::Abort(e));
    assert_eq!(w.stage(), WatchStage::Failed);
}

#[test]
fn watcher_keeps_waiting_when_handler_declines() {
    let (mut w, _) = SignalWatcher::new();
    assert_eq!(w.step(WatchEvent::Woken), WatchAction::CallHandler);
    assert_eq!(w.stage(), WatchStage::Handling);
    assert_eq!(w.step(WatchEvent::HandlerReturned(false)), WatchAction::WaitForSignal);
    assert_eq!(w.stage(), WatchStage::Waiting);
}

#[test]
fn start_installs_then_spawns() {
    let (mut st, a) = set_handler_inner(true);
    assert_eq!(a, StartAction::InstallOsHandler { overwrite: true });
    assert_eq!(st.stage(), StartStage::InstallingOsHandler);
    assert_eq!(st.step(StartEvent::OsHandlerInstalled), StartAction::SpawnWatcher);
    assert_eq!(st.stage(), StartStage::SpawningWatcher);
    assert_eq!(st.step(StartEvent::WatcherSpawned), StartAction::Succeed);
    assert_eq!(st.stage(), StartStage::Finished);
    assert_eq!(watcher_thread_name(), "ctrl-c");
}

#[test]
fn start_passes_overwrite_flag() {
    let (_, a) = set_handler_inner(false);
    assert_eq!(a, StartAction::InstallOsHandler { overwrite: false });
}

#[test]
fn failed_install_spawns_no_thread() {
    let (mut st, _) = set_handler_inner(false);
    let e = Error::System(SystemError::HandlerExists);
    assert_eq!(st.step(StartEvent::OsHandlerFailed(e)), StartAction::Fail(e));
    assert_eq!(st.stage(), StartStage::Finished);
}

#[test]
fn failed_spawn_is_a_system_error() {
    let (mut st, _) = set_handler_inner(true);
    st.step(StartEvent::OsHandlerInstalled);
    assert_eq!(
        st.step(StartEvent::SpawnFailed(11)),
        StartAction::Fail(Error::System(SystemError::Os(11)))
    );
}
