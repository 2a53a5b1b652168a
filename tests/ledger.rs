use areuok::ledger::{
    accept_request, accept_supervision_request, cancel_supervision_request, create_request,
    find_pending_request, get_pending_supervision_requests, reject_supervision_request,
    remove_supervision_relationship, send_supervision_request, update_request_status,
    validate_request_target, SupervisionError,
};
use areuok::models::{
    DeviceConfig, DeviceInfo, DeviceMode, SupervisionRelationship, SupervisionRequest,
    SupervisionRequestStatus,
};

fn device(id: &str, name: &str, mode: DeviceMode) -> DeviceConfig {
    DeviceConfig {
        device: DeviceInfo {
            device_id: id.to_string(),
            device_name: name.to_string(),
            imei: None,
            mode,
            created_at: "2024-01-01T00:00:00+00:00".to_string(),
        },
        supervision_requests: vec![],
        supervision_relationships: vec![],
    }
}

fn relationship(id: &str) -> SupervisionRelationship {
    SupervisionRelationship {
        relationship_id: id.to_string(),
        supervisor_device_id: "A".to_string(),
        supervisor_device_name: "Alpha".to_string(),
        supervised_device_id: "B".to_string(),
        supervised_device_name: "Beta".to_string(),
        established_at: "t0".to_string(),
        last_sync_at: "t0".to_string(),
    }
}

fn request_on(config: &mut DeviceConfig, id: &str, target: &str, status: SupervisionRequestStatus) {
    config.supervision_requests.push(SupervisionRequest {
        request_id: id.to_string(),
        supervisor_device_id: "A".to_string(),
        supervisor_device_name: "Alpha".to_string(),
        target_device_id: target.to_string(),
        status,
        created_at: "t0".to_string(),
    });
}

#[test]
fn supervisor_request_accepted_by_target() {
    let mut a = device("A", "Alpha", DeviceMode::Supervisor);
    let req = create_request(&mut a, "B".to_string(), "r1".to_string(), "t1".to_string()).unwrap();
    assert_eq!(req.request_id, "r1");
    assert_eq!(req.supervisor_device_id, "A");
    assert_eq!(req.supervisor_device_name, "Alpha");
    assert_eq!(req.target_device_id, "B");
    assert_eq!(req.status, SupervisionRequestStatus::Pending);
    assert_eq!(a.supervision_requests.len(), 1);

    let mut b = device("B", "Beta", DeviceMode::Signin);
    b.supervision_requests.push(req);
    let rel = accept_request(&mut b, "r1", "rel1".to_string(), "t2".to_string()).unwrap();
    assert_eq!(b.supervision_relationships.len(), 1);
    assert_eq!(rel.relationship_id, "rel1");
    assert_eq!(rel.supervisor_device_id, "A");
    assert_eq!(rel.supervisor_device_name, "Alpha");
    assert_eq!(rel.supervised_device_id, "B");
    assert_eq!(rel.supervised_device_name, "Beta");
    assert_eq!(rel.established_at, "t2");
    assert_eq!(rel.last_sync_at, "t2");
    assert_eq!(b.supervision_relationships[0].supervisor_device_id, "A");
    assert_eq!(b.supervision_relationships[0].supervised_device_id, "B");
    assert_eq!(b.supervision_requests[0].status, SupervisionRequestStatus::Accepted);
}

#[test]
fn accept_by_other_device_is_wrong_target() {
    let mut c = device("C", "Gamma", DeviceMode::Signin);
    request_on(&mut c, "r1", "B", SupervisionRequestStatus::Pending);
    let r = accept_request(&mut c, "r1", "rel1".to_string(), "t2".to_string());
    assert_eq!(r.unwrap_err(), SupervisionError::WrongTarget);
    assert!(c.supervision_relationships.is_empty());
    assert_eq!(c.supervision_requests[0].status, SupervisionRequestStatus::Pending);
}

#[test]
fn accept_with_random_id_and_time() {
    let mut b = device("B", "Beta", DeviceMode::Signin);
    request_on(&mut b, "r1", "B", SupervisionRequestStatus::Pending);
    let rel = accept_supervision_request(&mut b, "r1").unwrap();
    assert_eq!(rel.relationship_id.len(), 36);
    assert_eq!(rel.established_at, rel.last_sync_at);
    assert!(!rel.established_at.is_empty());
    assert_eq!(b.supervision_requests[0].status, SupervisionRequestStatus::Accepted);
}

#[test]
fn accept_unknown_or_settled_request_is_not_found() {
    let mut b = device("B", "Beta", DeviceMode::Signin);
    assert_eq!(
        accept_request(&mut b, "r1", "x".to_string(), "t".to_string()).unwrap_err(),
        SupervisionError::NotFound
    );
    for status in [
        SupervisionRequestStatus::Accepted,
        SupervisionRequestStatus::Rejected,
        SupervisionRequestStatus::Cancelled,
    ] {
        let mut b = device("B", "Beta", DeviceMode::Signin);
        request_on(&mut b, "r1", "B", status);
        assert_eq!(
            accept_request(&mut b, "r1", "x".to_string(), "t".to_string()).unwrap_err(),
            SupervisionError::NotFound
        );
        assert!(b.supervision_relationships.is_empty());
    }
}

#[test]
fn accepting_twice_fails_the_second_time() {
    let mut b = device("B", "Beta", DeviceMode::Signin);
    request_on(&mut b, "r1", "B", SupervisionRequestStatus::Pending);
    accept_request(&mut b, "r1", "x".to_string(), "t".to_string()).unwrap();
    let again = accept_request(&mut b, "r1", "y".to_string(), "t".to_string());
    assert_eq!(again.unwrap_err(), SupervisionError::NotFound);
    assert_eq!(b.supervision_relationships.len(), 1);
}

#[test]
fn accept_picks_the_pending_request_among_duplicates() {
    let mut b = device("B", "Beta", DeviceMode::Signin);
    request_on(&mut b, "r1", "B", SupervisionRequestStatus::Rejected);
    request_on(&mut b, "r1", "B", SupervisionRequestStatus::Pending);
    accept_request(&mut b, "r1", "x".to_string(), "t".to_string()).unwrap();
    assert_eq!(b.supervision_requests[0].status, SupervisionRequestStatus::Rejected);
    assert_eq!(b.supervision_requests[1].status, SupervisionRequestStatus::Accepted);
}

#[test]
fn signin_device_cannot_send_requests() {
    let mut b = device("B", "Beta", DeviceMode::Signin);
    let r = create_request(&mut b, "C".to_string(), "r1".to_string(), "t".to_string());
    assert_eq!(r.unwrap_err(), SupervisionError::NotAuthorized);
    assert!(b.supervision_requests.is_empty());
    let r = send_supervision_request(&mut b, "C".to_string());
    assert_eq!(r.unwrap_err(), SupervisionError::NotAuthorized);
}

#[test]
fn duplicate_requests_to_one_target_are_allowed() {
    let mut a = device("A", "Alpha", DeviceMode::Supervisor);
    let r1 = send_supervision_request(&mut a, "B".to_string()).unwrap();
    let r2 = send_supervision_request(&mut a, "B".to_string()).unwrap();
    assert_eq!(a.supervision_requests.len(), 2);
    assert_ne!(r1.request_id, r2.request_id);
    assert_eq!(r1.request_id.len(), 36);
    assert_eq!(r2.status, SupervisionRequestStatus::Pending);
}

#[test]
fn cancel_overwrites_any_status() {
    let mut a = device("A", "Alpha", DeviceMode::Supervisor);
    request_on(&mut a, "r1", "B", SupervisionRequestStatus::Accepted);
    cancel_supervision_request(&mut a, "r1").unwrap();
    assert_eq!(a.supervision_requests[0].status, SupervisionRequestStatus::Cancelled);
    assert_eq!(cancel_supervision_request(&mut a, "zz").unwrap_err(), SupervisionError::NotFound);
}

#[test]
fn reject_checks_existence_then_target() {
    let mut b = device("B", "Beta", DeviceMode::Signin);
    assert_eq!(reject_supervision_request(&mut b, "r1").unwrap_err(), SupervisionError::NotFound);
    request_on(&mut b, "r1", "C", SupervisionRequestStatus::Pending);
    request_on(&mut b, "r2", "B", SupervisionRequestStatus::Pending);
    assert_eq!(reject_supervision_request(&mut b, "r1").unwrap_err(), SupervisionError::WrongTarget);
    assert_eq!(b.supervision_requests[0].status, SupervisionRequestStatus::Pending);
    reject_supervision_request(&mut b, "r2").unwrap();
    assert_eq!(b.supervision_requests[1].status, SupervisionRequestStatus::Rejected);
    assert!(b.supervision_relationships.is_empty());
}

#[test]
fn pending_requests_for_this_device() {
    let mut b = device("B", "Beta", DeviceMode::Signin);
    request_on(&mut b, "r1", "B", SupervisionRequestStatus::Pending);
    request_on(&mut b, "r2", "C", SupervisionRequestStatus::Pending);
    request_on(&mut b, "r3", "B", SupervisionRequestStatus::Rejected);
    request_on(&mut b, "r4", "B", SupervisionRequestStatus::Pending);
    let ids: Vec<String> = get_pending_supervision_requests(&b).into_iter().map(|r| r.request_id).collect();
    assert_eq!(ids, vec!["r1", "r4"]);
}

#[test]
fn remove_relationship_then_again() {
    let mut b = device("B", "Beta", DeviceMode::Signin);
    b.supervision_relationships.push(relationship("x"));
    b.supervision_relationships.push(relationship("y"));
    remove_supervision_relationship(&mut b, "x").unwrap();
    assert_eq!(b.supervision_relationships.len(), 1);
    assert_eq!(b.supervision_relationships[0].relationship_id, "y");
    assert_eq!(remove_supervision_relationship(&mut b, "x").unwrap_err(), SupervisionError::NotFound);
    assert_eq!(b.supervision_relationships.len(), 1);
}

#[test]
fn helpers_find_validate_update() {
    let mut b = device("B", "Beta", DeviceMode::Signin);
    request_on(&mut b, "r1", "B", SupervisionRequestStatus::Rejected);
    request_on(&mut b, "r1", "C", SupervisionRequestStatus::Pending);
    assert_eq!(find_pending_request(&b, "r1"), Ok(1));
    assert_eq!(find_pending_request(&b, "r9"), Err(SupervisionError::NotFound));
    assert_eq!(validate_request_target(&b, &b.supervision_requests[0]), Ok(()));
    assert_eq!(
        validate_request_target(&b, &b.supervision_requests[1]),
        Err(SupervisionError::WrongTarget)
    );
    update_request_status(&mut b, "r1", SupervisionRequestStatus::Cancelled);
    assert_eq!(b.supervision_requests[0].status, SupervisionRequestStatus::Cancelled);
    assert_eq!(b.supervision_requests[1].status, SupervisionRequestStatus::Pending);
    assert_eq!(SupervisionError::WrongTarget.message(), "This request is not for this device");
}

#[test]
fn remove_drops_every_relationship_with_the_id() {
    let mut b = device("B", "Beta", DeviceMode::Signin);
    b.supervision_relationships.push(relationship("x"));
    b.supervision_relationships.push(relationship("y"));
    b.supervision_relationships.push(relationship("x"));
    remove_supervision_relationship(&mut b, "x").unwrap();
    assert_eq!(b.supervision_relationships.len(), 1);
    assert_eq!(b.supervision_relationships[0].relationship_id, "y");
}

#[test]
fn accepted_request_always_has_its_relationship() {
    let mut b = device("B", "Beta", DeviceMode::Signin);
    request_on(&mut b, "r1", "B", SupervisionRequestStatus::Pending);
    request_on(&mut b, "r2", "B", SupervisionRequestStatus::Pending);
    accept_request(&mut b, "r2", "rel2".to_string(), "t".to_string()).unwrap();
    let accepted: Vec<&SupervisionRequest> = b
        .supervision_requests
        .iter()
        .filter(|r| r.status == SupervisionRequestStatus::Accepted)
        .collect();
    assert_eq!(accepted.len(), b.supervision_relationships.len());
    assert_eq!(accepted[0].request_id, "r2");
    assert_eq!(b.supervision_relationships[0].supervisor_device_id, accepted[0].supervisor_device_id);
    assert_eq!(b.supervision_relationships[0].supervised_device_id, accepted[0].target_device_id);
}

#[test]
fn error_messages() {
    assert_eq!(SupervisionError::NotFound.message(), "Not found");
    assert_eq!(
        SupervisionError::NotAuthorized.message(),
        "Only supervisor devices can send supervision requests"
    );
}

#[test]
fn settled_request_cannot_be_rejected() {
    for status in [
        SupervisionRequestStatus::Accepted,
        SupervisionRequestStatus::Rejected,
        SupervisionRequestStatus::Cancelled,
    ] {
        let mut b = device("B", "Beta", DeviceMode::Signin);
        request_on(&mut b, "r1", "B", status);
        assert_eq!(reject_supervision_request(&mut b, "r1").unwrap_err(), SupervisionError::NotFound);
        assert_eq!(b.supervision_requests[0].status, status);
    }
}

#[test]
fn reject_looks_at_first_request_with_the_id() {
    let mut b = device("B", "Beta", DeviceMode::Signin);
    request_on(&mut b, "r1", "B", SupervisionRequestStatus::Accepted);
    request_on(&mut b, "r1", "B", SupervisionRequestStatus::Pending);
    assert_eq!(reject_supervision_request(&mut b, "r1").unwrap_err(), SupervisionError::NotFound);
    assert_eq!(b.supervision_requests[0].status, SupervisionRequestStatus::Accepted);
    assert_eq!(b.supervision_requests[1].status, SupervisionRequestStatus::Pending);
}

#[test]
fn reject_settled_request_for_other_device_is_wrong_target() {
    let mut b = device("B", "Beta", DeviceMode::Signin);
    request_on(&mut b, "r1", "C", SupervisionRequestStatus::Accepted);
    assert_eq!(reject_supervision_request(&mut b, "r1").unwrap_err(), SupervisionError::WrongTarget);
    assert_eq!(b.supervision_requests[0].status, SupervisionRequestStatus::Accepted);
}
