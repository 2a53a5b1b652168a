use areuok::models::{
    DeviceConfig, DeviceInfo, DeviceMode, SigninData, SupervisionRelationship, SupervisionRequest,
    SupervisionRequestStatus,
};
use areuok::view::{build_device_status, get_supervised_devices, get_supervisor_status};

fn link(id: &str, supervisor: &str, supervised: &str) -> SupervisionRelationship {
    SupervisionRelationship {
        relationship_id: id.to_string(),
        supervisor_device_id: supervisor.to_string(),
        supervisor_device_name: "Alpha".to_string(),
        supervised_device_id: supervised.to_string(),
        supervised_device_name: format!("{}-name", supervised),
        established_at: "t0".to_string(),
        last_sync_at: format!("sync-{}", id),
    }
}

fn supervisor() -> DeviceConfig {
    DeviceConfig {
        device: DeviceInfo {
            device_id: "A".to_string(),
            device_name: "Alpha".to_string(),
            imei: None,
            mode: DeviceMode::Supervisor,
            created_at: "t".to_string(),
        },
        supervision_requests: vec![],
        supervision_relationships: vec![link("x", "A", "B"), link("y", "Z", "C"), link("z", "A", "D")],
    }
}

fn checkin(last: &str, streak: i32) -> SigninData {
    SigninData {
        name: "amy".to_string(),
        last_signin_date: last.to_string(),
        streak,
        signin_history: vec![last.to_string()],
    }
}

#[test]
fn status_joins_record_and_today() {
    let s = build_device_status(&link("x", "A", "B"), &Some(checkin("2024-01-02", 5)), "2024-01-02");
    assert_eq!(s.device_id, "B");
    assert_eq!(s.device_name, "B-name");
    assert_eq!(s.last_signin_date, "2024-01-02");
    assert_eq!(s.streak, 5);
    assert!(s.is_signed_in_today);
    assert_eq!(s.last_sync_at, "sync-x");
    let s = build_device_status(&link("x", "A", "B"), &Some(checkin("2024-01-01", 5)), "2024-01-02");
    assert!(!s.is_signed_in_today);
}

#[test]
fn status_without_record_is_empty() {
    let s = build_device_status(&link("x", "A", "B"), &None, "2024-01-02");
    assert_eq!(s.last_signin_date, "");
    assert_eq!(s.streak, 0);
    assert!(!s.is_signed_in_today);
}

#[test]
fn only_own_relationships_are_listed() {
    let config = supervisor();
    let list = get_supervised_devices(&config, &Some(checkin("2024-01-02", 2)), "2024-01-02");
    let ids: Vec<&str> = list.iter().map(|s| s.device_id.as_str()).collect();
    assert_eq!(ids, vec!["B", "D"]);
    assert!(list.iter().all(|s| s.streak == 2 && s.is_signed_in_today));
}

#[test]
fn supervisor_status_bundles_pending_requests() {
    let mut config = supervisor();
    for (id, sup, status) in [
        ("r1", "A", SupervisionRequestStatus::Pending),
        ("r2", "A", SupervisionRequestStatus::Accepted),
        ("r3", "Q", SupervisionRequestStatus::Pending),
        ("r4", "A", SupervisionRequestStatus::Pending),
    ] {
        config.supervision_requests.push(SupervisionRequest {
            request_id: id.to_string(),
            supervisor_device_id: sup.to_string(),
            supervisor_device_name: "n".to_string(),
            target_device_id: "B".to_string(),
            status,
            created_at: "t".to_string(),
        });
    }
    let st = get_supervisor_status(&config, &None, "2024-01-02");
    assert_eq!(st.supervisor_device_id, "A");
    assert_eq!(st.supervised_devices.len(), 2);
    let ids: Vec<&str> = st.pending_requests.iter().map(|r| r.request_id.as_str()).collect();
    assert_eq!(ids, vec!["r1", "r4"]);
}
