use intiface_engine_flutter_bridge::lifecycle::{runtime_started, Lifecycle, StartError};

#[test]
fn new_lifecycle_is_idle() {
    let lc: Lifecycle<u32, u8> = Lifecycle::new();
    assert!(!lc.is_running());
    assert!(!runtime_started(&lc));
    assert_eq!(lc.check_start(), Ok(()));
}

#[test]
fn start_takes_context_and_runs() {
    let mut lc: Lifecycle<u32, u8> = Lifecycle::new();
    assert_eq!(lc.start(7, 1), Ok(()));
    assert!(lc.is_running());
    assert!(runtime_started(&lc));
}

#[test]
fn second_start_is_already_running() {
    let mut lc: Lifecycle<u32, u8> = Lifecycle::new();
    assert_eq!(lc.start(7, 1), Ok(()));
    assert_eq!(lc.start(8, 2), Err(StartError::AlreadyRunning));
    assert_eq!(lc.take_context(), Some(7));
}

#[test]
fn start_after_completion_is_already_initialized() {
    let mut lc: Lifecycle<u32, u8> = Lifecycle::new();
    assert_eq!(lc.start(7, 1), Ok(()));
    lc.complete_run();
    assert!(!lc.is_running());
    assert_eq!(lc.start(8, 2), Err(StartError::AlreadyInitialized));
    assert_eq!(lc.take_context(), Some(7));
}

#[test]
fn stop_hands_out_notifier_then_context() {
    let mut lc: Lifecycle<u32, u8> = Lifecycle::new();
    assert_eq!(lc.start(7, 1), Ok(()));
    assert_eq!(lc.take_notifier(), Some(1));
    assert!(runtime_started(&lc));
    assert_eq!(lc.take_notifier(), None);
    assert_eq!(lc.take_context(), Some(7));
    assert!(!lc.is_running());
    assert!(!runtime_started(&lc));
}

#[test]
fn stop_when_idle_is_a_no_op() {
    let mut lc: Lifecycle<u32, u8> = Lifecycle::new();
    assert_eq!(lc.take_notifier(), None);
    assert_eq!(lc.take_context(), None);
    assert!(!lc.is_running());
    assert_eq!(lc.check_start(), Ok(()));
}

#[test]
fn start_succeeds_after_stop_each_cycle() {
    let mut lc: Lifecycle<u32, u8> = Lifecycle::new();
    for cycle in 0..3u32 {
        assert_eq!(lc.start(cycle, cycle as u8), Ok(()));
        assert_eq!(lc.take_notifier(), Some(cycle as u8));
        assert_eq!(lc.take_context(), Some(cycle));
    }
    assert_eq!(lc.start(9, 9), Ok(()));
}

#[test]
fn each_cycle_gets_its_own_notifier() {
    let mut lc: Lifecycle<u32, u8> = Lifecycle::new();
    assert_eq!(lc.start(1, 10), Ok(()));
    assert_eq!(lc.take_notifier(), Some(10));
    assert_eq!(lc.take_context(), Some(1));
    assert_eq!(lc.start(2, 20), Ok(()));
    assert_eq!(lc.take_notifier(), Some(20));
}

#[test]
fn refused_start_changes_nothing() {
    let mut lc: Lifecycle<u32, u8> = Lifecycle::new();
    assert_eq!(lc.start(1, 10), Ok(()));
    assert_eq!(lc.start(2, 20), Err(StartError::AlreadyRunning));
    assert!(lc.is_running());
    assert_eq!(lc.take_notifier(), Some(10));
    assert_eq!(lc.take_context(), Some(1));
}
