use yangtze::error::YangtzeError;
use yangtze::fabric::{get_version_kind, initial_status, version_kind, Fabric, FabricSpec, FabricState, FabricStatus};
use yangtze::meta::{all, Metadata};

#[test]
fn errors_map_to_distinct_statuses() {
    assert_eq!(YangtzeError::NotFound("x".to_string()).status_code(), 404);
    assert_eq!(YangtzeError::Conflict("x".to_string()).status_code(), 409);
    assert_eq!(YangtzeError::RestfulError("x".to_string()).status_code(), 502);
    assert_eq!(YangtzeError::GeneralError("x".to_string()).status_code(), 500);
    assert_eq!(YangtzeError::DecodeError("x".to_string()).status_code(), 500);
    assert_eq!(YangtzeError::InvalidConfig("x".to_string()).status_code(), 500);
    assert_eq!(YangtzeError::Conflict("stale".to_string()).message(), "stale");
}

#[test]
fn fabric_states_display() {
    assert_eq!(FabricState::Initializing.text(), "Initializing");
    assert_eq!(FabricState::Ready.text(), "Ready");
    assert_eq!(FabricState::Error.text(), "Error");
    assert_eq!(FabricState::Deleting.text(), "Deleting");
    assert_eq!(FabricState::Deleted.text(), "Deleted");
}

#[test]
fn creation_forces_initial_status() {
    let f = Fabric {
        meta_data: Metadata {
            uuid: None,
            kind: "fabric".to_string(),
            namespace: "default".to_string(),
            name: "f1".to_string(),
            labels: vec![],
            version: 0,
        },
        spec: FabricSpec { selector: "s".to_string() },
        status: Some(FabricStatus { state: FabricState::Ready, total: 5, available: 5 }),
    };
    assert_eq!(f.display_name(), "f1");
    let f = f.with_initial_status();
    assert_eq!(f.status, Some(initial_status()));
    assert_eq!(initial_status(), FabricStatus { state: FabricState::Initializing, total: 0, available: 0 });
    assert_eq!(f.spec.clone().selector, "s");
}

#[test]
fn version_kinds_by_name() {
    let vk = version_kind();
    assert_eq!((vk.version, vk.kind), ("v1alpha1", "fabric"));
    let vk = get_version_kind("fabric").unwrap();
    assert_eq!((vk.version, vk.kind), ("v1alpha1", "fabric"));
    assert!(get_version_kind("switch").is_none());
}

#[test]
fn match_all_filter_sets_nothing() {
    let f = all();
    assert!(f.namespace.is_none());
    assert!(f.name.is_none());
}
