use yangtze::controller::{
    start, step, FabricController, LoopAction, LoopEvent, LoopState, SwitchController, MAX_LIST_ATTEMPTS,
    POLL_INTERVAL_SECS,
};
use yangtze::error::YangtzeError;
use yangtze::fabric::{Fabric, FabricSpec, FabricState, FabricStatus};
use yangtze::meta::Metadata;

fn fabric(uuid: Option<u128>, status: Option<FabricStatus>) -> Fabric {
    Fabric {
        meta_data: Metadata {
            uuid,
            kind: "fabric".to_string(),
            namespace: "default".to_string(),
            name: "f1".to_string(),
            labels: vec![],
            version: 3,
        },
        spec: FabricSpec { selector: "rack=1".to_string() },
        status,
    }
}

fn is_execute(a: &LoopAction, i: usize) -> bool {
    matches!(a, LoopAction::Execute(k) if *k == i)
}

fn is_sleep(a: &LoopAction) -> bool {
    matches!(a, LoopAction::Sleep(s) if *s == POLL_INTERVAL_SECS)
}

#[test]
fn loop_starts_asleep() {
    let (s, a) = start();
    assert!(matches!(s, LoopState::Sleeping { failures: 0 }));
    assert!(is_sleep(&a));
    assert_eq!(POLL_INTERVAL_SECS, 10);
}

#[test]
fn failed_execution_does_not_stop_the_pass() {
    let (s, a) = step(LoopState::Sleeping { failures: 0 }, LoopEvent::Woke);
    assert!(matches!(a, LoopAction::List));
    let (mut s, a) = step(s, LoopEvent::Listed(Ok(3)));
    assert!(is_execute(&a, 0));
    let results = vec![Ok(()), Err(YangtzeError::Conflict("stale".to_string())), Ok(())];
    let mut actions = Vec::new();
    for r in results {
        let (next, a) = step(s, LoopEvent::Executed(r));
        s = next;
        actions.push(a);
    }
    assert!(is_execute(&actions[0], 1));
    assert!(is_execute(&actions[1], 2));
    assert!(is_sleep(&actions[2]));
    assert!(matches!(s, LoopState::Sleeping { failures: 0 }));
    let (_, a) = step(s, LoopEvent::Woke);
    assert!(matches!(a, LoopAction::List));
}

#[test]
fn failed_first_execution_still_reaches_the_rest() {
    let (s, _) = step(LoopState::Listing { failures: 0 }, LoopEvent::Listed(Ok(2)));
    let (s, a) = step(s, LoopEvent::Executed(Err(YangtzeError::NotFound("gone".to_string()))));
    assert!(is_execute(&a, 1));
    let (s, a) = step(s, LoopEvent::Executed(Err(YangtzeError::DecodeError("bad".to_string()))));
    assert!(is_sleep(&a));
    assert!(matches!(s, LoopState::Sleeping { failures: 0 }));
}

#[test]
fn empty_listing_goes_back_to_sleep() {
    let (s, a) = step(LoopState::Listing { failures: 0 }, LoopEvent::Listed(Ok(0)));
    assert!(matches!(s, LoopState::Sleeping { failures: 0 }));
    assert!(is_sleep(&a));
}

#[test]
fn failed_listing_is_retried_with_longer_waits() {
    let (s, a) = step(LoopState::Listing { failures: 0 }, LoopEvent::Listed(Err(YangtzeError::RestfulError("502".to_string()))));
    assert!(matches!(s, LoopState::Sleeping { failures: 1 }));
    assert!(matches!(a, LoopAction::Sleep(20)));
    let (s, a) = step(s, LoopEvent::Woke);
    assert!(matches!(s, LoopState::Listing { failures: 1 }));
    assert!(matches!(a, LoopAction::List));
    let (s, a) = step(s, LoopEvent::Listed(Err(YangtzeError::RestfulError("502".to_string()))));
    assert!(matches!(s, LoopState::Sleeping { failures: 2 }));
    assert!(matches!(a, LoopAction::Sleep(30)));
    let (s, _) = step(s, LoopEvent::Woke);
    let (s, a) = step(s, LoopEvent::Listed(Ok(0)));
    assert!(matches!(s, LoopState::Sleeping { failures: 0 }));
    assert!(is_sleep(&a));
}

#[test]
fn repeated_listing_failures_stop_the_loop() {
    assert_eq!(MAX_LIST_ATTEMPTS, 5);
    let mut s = LoopState::Listing { failures: 0 };
    for k in 1..MAX_LIST_ATTEMPTS {
        let (next, a) = step(s, LoopEvent::Listed(Err(YangtzeError::RestfulError("502".to_string()))));
        assert!(matches!(a, LoopAction::Sleep(w) if w == POLL_INTERVAL_SECS * (k as u64 + 1)));
        let (next, _) = step(next, LoopEvent::Woke);
        s = next;
    }
    let (s, a) = step(s, LoopEvent::Listed(Err(YangtzeError::RestfulError("502".to_string()))));
    assert!(matches!(s, LoopState::Stopped));
    assert!(matches!(a, LoopAction::Stop(YangtzeError::RestfulError(ref m)) if m == "502"));
    let (s, a) = step(s, LoopEvent::Woke);
    assert!(matches!(s, LoopState::Stopped));
    assert!(matches!(a, LoopAction::Wait));
}

#[test]
fn unexpected_event_changes_nothing() {
    let (s, a) = step(LoopState::Sleeping { failures: 0 }, LoopEvent::Executed(Ok(())));
    assert!(matches!(s, LoopState::Sleeping { failures: 0 }));
    assert!(matches!(a, LoopAction::Wait));
    let (s, a) = step(LoopState::Reconciling { total: 2, next: 0 }, LoopEvent::Woke);
    assert!(matches!(s, LoopState::Reconciling { total: 2, next: 0 }));
    assert!(matches!(a, LoopAction::Wait));
}

#[test]
fn reconcile_marks_existing_status_ready() {
    let c = FabricController {};
    let before = FabricStatus { state: FabricState::Initializing, total: 4, available: 2 };
    let f = c.reconcile(fabric(Some(1), Some(before)));
    assert_eq!(f.status, Some(FabricStatus { state: FabricState::Ready, total: 4, available: 2 }));
    assert_eq!(f.meta_data.version, 3);
    assert_eq!(f.spec.selector, "rack=1");
}

#[test]
fn reconcile_initializes_missing_status() {
    let c = FabricController {};
    let f = c.reconcile(fabric(Some(1), None));
    assert_eq!(f.status, Some(FabricStatus { state: FabricState::Initializing, total: 0, available: 0 }));
}

#[test]
fn target_id_needs_an_id() {
    let c = FabricController {};
    match c.target_id(&fabric(None, None)) {
        Err(YangtzeError::InvalidConfig(m)) => assert_eq!(m, "The id of <f1> is none."),
        _ => panic!("expected an invalid configuration"),
    }
    let id: u128 = 0xa1a2a3a4b1b2c1c2d1d2d3d4d5d6d7d8;
    let t = c.target_id(&fabric(Some(id), None)).unwrap();
    assert_eq!(t, "a1a2a3a4-b1b2-c1c2-d1d2-d3d4d5d6d7d8");
}

#[test]
fn controllers_bind_to_fabric() {
    let vk = FabricController {}.get_version_kind();
    assert_eq!((vk.version, vk.kind), ("v1alpha1", "fabric"));
    let vk = SwitchController {}.get_version_kind().clone();
    assert_eq!((vk.version, vk.kind), ("v1alpha1", "fabric"));
}
