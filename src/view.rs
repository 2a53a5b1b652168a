//! What a supervisor sees of the devices it supervises.
use vstd::prelude::*;
use vstd::string::*;

use crate::models::{
    DeviceConfig, DeviceStatus, SigninData, SupervisionRelationship, SupervisionRequest,
    SupervisionRequestStatus, SupervisorStatus,
};

verus! {

/// The content of a supervised device's status.
pub struct DeviceStatusView {
    pub device_id: Seq<char>,
    pub device_name: Seq<char>,
    pub last_signin_date: Seq<char>,
    pub streak: int,
    pub is_signed_in_today: bool,
    pub last_sync_at: Seq<char>,
}

impl View for DeviceStatus {
    type V = DeviceStatusView;

    open spec fn view(&self) -> DeviceStatusView {
        DeviceStatusView {
            device_id: self.device_id@,
            device_name: self.device_name@,
            last_signin_date: self.last_signin_date@,
            streak: self.streak as int,
            is_signed_in_today: self.is_signed_in_today,
            last_sync_at: self.last_sync_at@,
        }
    }
}

/// The contents of a list of statuses.
pub open spec fn status_views(v: Seq<DeviceStatus>) -> Seq<DeviceStatusView> {
    v.map_values(|d: DeviceStatus| d@)
}

/// The status of the device that `rel` supervises, read from the check-in
/// record `data` as of the day `today`.
pub open spec fn status_of(rel: SupervisionRelationship, data: Option<SigninData>, today: Seq<char>) -> DeviceStatusView {
    DeviceStatusView {
        device_id: rel.supervised_device_id@,
        device_name: rel.supervised_device_name@,
        last_signin_date: match data {
            Some(d) => d.last_signin_date@,
            None => Seq::empty(),
        },
        streak: match data {
            Some(d) => d.streak as int,
            None => 0,
        },
        is_signed_in_today: data matches Some(d) && d.last_signin_date@ == today,
        last_sync_at: rel.last_sync_at@,
    }
}

/// The status of the device that `relationship` supervises, joined with the
/// check-in record `signin_data`: its last day and streak (empty and zero
/// without a record), and whether that day is `today`.
pub fn build_device_status(
    relationship: &SupervisionRelationship,
    signin_data: &Option<SigninData>,
    today: &str,
) -> (r: DeviceStatus)
    ensures
        r@ == status_of(*relationship, *signin_data, today@),
{
    let today_text = String::from_str(today);
    let (last_signin_date, streak, is_signed_in_today) = match signin_data {
        Some(d) => (d.last_signin_date.clone(), d.streak, d.last_signin_date == today_text),
        None => (String::new(), 0i32, false),
    };
    DeviceStatus {
        device_id: relationship.supervised_device_id.clone(),
        device_name: relationship.supervised_device_name.clone(),
        last_signin_date,
        streak,
        is_signed_in_today,
        last_sync_at: relationship.last_sync_at.clone(),
    }
}

/// The relationship's supervisor is the device `device_id`.
pub open spec fn supervised_by(rel: SupervisionRelationship, device_id: Seq<char>) -> bool {
    rel.supervisor_device_id@ == device_id
}

/// The statuses of the devices that the local device supervises, in the
/// order of its relationships.
pub open spec fn supervised_statuses(
    config: DeviceConfig,
    data: Option<SigninData>,
    today: Seq<char>,
) -> Seq<DeviceStatusView> {
    config.supervision_relationships@.filter(
        |rel: SupervisionRelationship| supervised_by(rel, config.device.device_id@),
    ).map_values(|rel: SupervisionRelationship| status_of(rel, data, today))
}

/// The statuses of the devices that the local device supervises.
pub fn get_supervised_devices(config: &DeviceConfig, signin_data: &Option<SigninData>, today: &str) -> (r:
    Vec<DeviceStatus>)
    ensures
        status_views(r@) == supervised_statuses(*config, *signin_data, today@),
{
    let rels = &config.supervision_relationships;
    let ghost pred = |rel: SupervisionRelationship| supervised_by(rel, config.device.device_id@);
    let ghost f = |rel: SupervisionRelationship| status_of(rel, *signin_data, today@);
    let mut out: Vec<DeviceStatus> = Vec::new();
    let mut i: usize = 0;
    while i < rels.len()
        invariant
            i <= rels@.len(),
            status_views(out@) == rels@.subrange(0, i as int).filter(pred).map_values(f),
            pred == (|rel: SupervisionRelationship| supervised_by(rel, config.device.device_id@)),
            f == (|rel: SupervisionRelationship| status_of(rel, *signin_data, today@)),
        decreases rels@.len() - i,
    {
        let rel = &rels[i];
        let ghost kept = rels@.subrange(0, i as int).filter(pred);
        proof {
            reveal(Seq::filter);
            assert(rels@.subrange(0, i + 1).drop_last() =~= rels@.subrange(0, i as int));
        }
        if rel.supervisor_device_id == config.device.device_id {
            let status = build_device_status(rel, signin_data, today);
            let ghost old_out = out@;
            out.push(status);
            proof {
                assert(status_views(out@) =~= status_views(old_out).push(status@));
                assert(kept.push(*rel).map_values(f) =~= kept.map_values(f).push(f(*rel)));
            }
        }
        i = i + 1;
    }
    assert(rels@.subrange(0, rels@.len() as int) =~= rels@);
    out
}

/// The request is pending and was sent by `device_id`.
pub open spec fn pending_from(r: SupervisionRequest, device_id: Seq<char>) -> bool {
    r.supervisor_device_id@ == device_id && r.status == SupervisionRequestStatus::Pending
}

/// The requests of `reqs` still pending that `device_id` sent, in order.
pub open spec fn pending_requests_from(reqs: Seq<SupervisionRequest>, device_id: Seq<char>) -> Seq<
    SupervisionRequest,
> {
    reqs.filter(|r: SupervisionRequest| pending_from(r, device_id))
}

/// The local device's view as a supervisor: the devices it supervises and
/// the requests it sent that are still pending.
pub fn get_supervisor_status(config: &DeviceConfig, signin_data: &Option<SigninData>, today: &str) -> (r:
    SupervisorStatus)
    ensures
        r.supervisor_device_id == config.device.device_id,
        status_views(r.supervised_devices@) == supervised_statuses(*config, *signin_data, today@),
        r.pending_requests@ == pending_requests_from(
            config.supervision_requests@,
            config.device.device_id@,
        ),
{
    let supervised_devices = get_supervised_devices(config, signin_data, today);
    let reqs = &config.supervision_requests;
    let ghost pred = |r: SupervisionRequest| pending_from(r, config.device.device_id@);
    let mut pending: Vec<SupervisionRequest> = Vec::new();
    let mut i: usize = 0;
    while i < reqs.len()
        invariant
            i <= reqs@.len(),
            pending@ == reqs@.subrange(0, i as int).filter(pred),
            pred == (|r: SupervisionRequest| pending_from(r, config.device.device_id@)),
        decreases reqs@.len() - i,
    {
        let r = &reqs[i];
        proof {
            reveal(Seq::filter);
            assert(reqs@.subrange(0, i + 1).drop_last() =~= reqs@.subrange(0, i as int));
        }
        if r.supervisor_device_id == config.device.device_id && r.status
            == SupervisionRequestStatus::Pending {
            pending.push(r.copied());
        }
        i = i + 1;
    }
    assert(reqs@.subrange(0, reqs@.len() as int) =~= reqs@);
    SupervisorStatus {
        supervisor_device_id: config.device.device_id.clone(),
        supervised_devices,
        pending_requests: pending,
    }
}

} // verus!
