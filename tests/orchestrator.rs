use intiface_engine_flutter_bridge::lifecycle::Lifecycle;
use intiface_engine_flutter_bridge::orchestrator::{JoinActions, RunJoin, TaskEvent};

const NOTHING: JoinActions = JoinActions { fire_cancel: false, stop_engine: false, finish: false };

#[test]
fn engine_completes_then_sink_closes_then_idle() {
    let mut lc: Lifecycle<u32, u8> = Lifecycle::new();
    assert_eq!(lc.start(1, 1), Ok(()));
    let mut join = RunJoin::new();
    assert!(join.may_deliver());
    let a = join.on_event(TaskEvent::EngineReturned);
    assert_eq!(a, JoinActions { fire_cancel: true, stop_engine: false, finish: false });
    assert!(join.may_deliver());
    let a = join.on_event(TaskEvent::CancelObserved);
    assert_eq!(a, JoinActions { fire_cancel: false, stop_engine: true, finish: false });
    let a = join.on_event(TaskEvent::RelayExited);
    assert_eq!(a, JoinActions { fire_cancel: false, stop_engine: false, finish: true });
    assert!(!join.may_deliver());
    lc.complete_run();
    assert!(!lc.is_running());
}

#[test]
fn external_stop_stops_engine_before_sink_closes() {
    let mut lc: Lifecycle<u32, u8> = Lifecycle::new();
    assert_eq!(lc.start(1, 1), Ok(()));
    let mut join = RunJoin::new();
    assert_eq!(lc.take_notifier(), Some(1));
    let a = join.on_event(TaskEvent::CancelObserved);
    assert!(a.stop_engine && !a.finish);
    assert!(join.may_deliver());
    assert_eq!(join.on_event(TaskEvent::RelayExited), NOTHING);
    let a = join.on_event(TaskEvent::EngineReturned);
    assert_eq!(a, JoinActions { fire_cancel: true, stop_engine: false, finish: true });
    assert!(!join.may_deliver());
    assert_eq!(lc.take_context(), Some(1));
    assert!(!lc.is_running());
}

#[test]
fn finish_happens_once() {
    let mut join = RunJoin::new();
    join.on_event(TaskEvent::RelayExited);
    join.on_event(TaskEvent::CancelObserved);
    assert!(join.on_event(TaskEvent::EngineReturned).finish);
    assert_eq!(join.on_event(TaskEvent::EngineReturned), NOTHING);
    assert_eq!(join.on_event(TaskEvent::RelayExited), NOTHING);
    assert_eq!(join.on_event(TaskEvent::CancelObserved), NOTHING);
    assert!(!join.may_deliver());
}

#[test]
fn engine_stop_requested_once() {
    let mut join = RunJoin::new();
    assert!(join.on_event(TaskEvent::CancelObserved).stop_engine);
    assert!(!join.on_event(TaskEvent::CancelObserved).stop_engine);
}

#[test]
fn sink_stays_open_until_relay_exits() {
    let mut join = RunJoin::new();
    join.on_event(TaskEvent::EngineReturned);
    join.on_event(TaskEvent::CancelObserved);
    assert!(join.may_deliver());
}
