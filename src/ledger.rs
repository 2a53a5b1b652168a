//! The supervision ledger: requests between devices and the relationships
//! that accepted requests establish.
use vstd::prelude::*;
use vstd::string::*;

use crate::calendar::now_timestamp;
use crate::models::{
    DeviceConfig, DeviceInfo, DeviceMode, SupervisionRelationship, SupervisionRequest,
    SupervisionRequestStatus,
};

verus! {

/// Why a ledger operation was refused.
#[derive(Debug, Clone, Copy, PartialEq, Eq, Structural)]
pub enum SupervisionError {
    /// No request or relationship has the given id. For an acceptance: no
    /// request with the id is still pending. For a rejection: the request
    /// with the id, addressed to this device, is no longer pending.
    NotFound,
    /// The request is addressed to another device.
    WrongTarget,
    /// Only a device in supervisor mode may send requests.
    NotAuthorized,
}

impl SupervisionError {
    /// A sentence that tells a user what went wrong.
    pub fn message(&self) -> (r: String)
        ensures
            r@ == error_message(*self)@,
    {
        let text = match self {
            SupervisionError::NotFound => "Not found",
            SupervisionError::WrongTarget => "This request is not for this device",
            SupervisionError::NotAuthorized => "Only supervisor devices can send supervision requests",
        };
        String::from_str(text)
    }
}

/// The sentence for each error.
pub open spec fn error_message(e: SupervisionError) -> &'static str {
    match e {
        SupervisionError::NotFound => "Not found",
        SupervisionError::WrongTarget => "This request is not for this device",
        SupervisionError::NotAuthorized => "Only supervisor devices can send supervision requests",
    }
}

/// The request has the id `id`; with `pending_only`, it must also be pending.
pub open spec fn request_selected(r: SupervisionRequest, id: Seq<char>, pending_only: bool) -> bool {
    r.request_id@ == id && (!pending_only || r.status == SupervisionRequestStatus::Pending)
}

/// Some request of `reqs` is selected by `id` and `pending_only`.
pub open spec fn has_selected(reqs: Seq<SupervisionRequest>, id: Seq<char>, pending_only: bool) -> bool {
    exists|i: int| 0 <= i < reqs.len() && request_selected(#[trigger] reqs[i], id, pending_only)
}

/// `i` is the first position of `reqs` selected by `id` and `pending_only`.
pub open spec fn first_selected(
    reqs: Seq<SupervisionRequest>,
    i: int,
    id: Seq<char>,
    pending_only: bool,
) -> bool {
    &&& 0 <= i < reqs.len()
    &&& request_selected(reqs[i], id, pending_only)
    &&& forall|j: int| 0 <= j < i ==> !request_selected(#[trigger] reqs[j], id, pending_only)
}

/// The request with another status.
pub open spec fn with_status(r: SupervisionRequest, status: SupervisionRequestStatus) -> SupervisionRequest {
    SupervisionRequest { status, ..r }
}

/// The ledger after the first request selected by `id` and `pending_only`
/// takes `status`; the same ledger when there is none.
pub open spec fn status_set(
    reqs: Seq<SupervisionRequest>,
    id: Seq<char>,
    pending_only: bool,
    status: SupervisionRequestStatus,
    after: Seq<SupervisionRequest>,
) -> bool {
    if has_selected(reqs, id, pending_only) {
        exists|i: int|
            first_selected(reqs, i, id, pending_only) && after == #[trigger] reqs.update(
                i,
                with_status(reqs[i], status),
            )
    } else {
        after == reqs
    }
}

/// There is only one first position selected by `id` and `pending_only`.
proof fn lemma_first_selected_unique(
    reqs: Seq<SupervisionRequest>,
    i: int,
    j: int,
    id: Seq<char>,
    pending_only: bool,
)
    requires
        first_selected(reqs, i, id, pending_only),
        first_selected(reqs, j, id, pending_only),
    ensures
        i == j,
{
    if i < j {
        assert(!request_selected(reqs[i], id, pending_only));
    } else if j < i {
        assert(!request_selected(reqs[j], id, pending_only));
    }
}

/// The position of the first request selected by `id` and `pending_only`.
fn position_of(reqs: &Vec<SupervisionRequest>, id: &String, pending_only: bool) -> (r: Option<
    usize,
>)
    ensures
        r matches Some(i) ==> first_selected(reqs@, i as int, id@, pending_only),
        r is None <==> !has_selected(reqs@, id@, pending_only),
{
    let mut i: usize = 0;
    while i < reqs.len()
        invariant
            i <= reqs@.len(),
            forall|j: int| 0 <= j < i ==> !request_selected(#[trigger] reqs@[j], id@, pending_only),
        decreases reqs@.len() - i,
    {
        let r = &reqs[i];
        if r.request_id == *id && (!pending_only || r.status == SupervisionRequestStatus::Pending) {
            return Some(i);
        }
        i = i + 1;
    }
    None
}

/// The first request with id `request_id` takes `status`; nothing changes
/// when there is none.
pub fn update_request_status(
    config: &mut DeviceConfig,
    request_id: &str,
    status: SupervisionRequestStatus,
)
    ensures
        status_set(
            old(config).supervision_requests@,
            request_id@,
            false,
            status,
            final(config).supervision_requests@,
        ),
        final(config).device == old(config).device,
        final(config).supervision_relationships == old(config).supervision_relationships,
{
    let id = String::from_str(request_id);
    match position_of(&config.supervision_requests, &id, false) {
        Some(i) => {
            config.supervision_requests[i].status = status;
            assert(config.supervision_requests@ =~= old(config).supervision_requests@.update(
                i as int,
                with_status(old(config).supervision_requests@[i as int], status),
            ));
        },
        None => {},
    }
}

/// A new random identifier.
///
/// Relies on `uuid::Uuid::new_v4` and the hyphenated text of a `Uuid`. The
/// value is random, so nothing is promised of it.
#[verifier::external_body]
pub(crate) fn new_identifier() -> (r: String) {
    uuid::Uuid::new_v4().to_string()
}

/// The request that `device` sends to `target_device_id`, before it is
/// answered.
pub open spec fn request_from(
    device: DeviceInfo,
    target_device_id: String,
    request_id: String,
    created_at: String,
) -> SupervisionRequest {
    SupervisionRequest {
        request_id,
        supervisor_device_id: device.device_id,
        supervisor_device_name: device.device_name,
        target_device_id,
        status: SupervisionRequestStatus::Pending,
        created_at,
    }
}

/// Records a request from the local device to `target_device_id`, under the
/// id `request_id` and the time `created_at`. Only a device in supervisor
/// mode may send one; several requests to the same target may stand at once.
pub fn create_request(
    config: &mut DeviceConfig,
    target_device_id: String,
    request_id: String,
    created_at: String,
) -> (r: Result<SupervisionRequest, SupervisionError>)
    ensures
        r is Err <==> old(config).device.mode != DeviceMode::Supervisor,
        r matches Err(e) ==> e == SupervisionError::NotAuthorized && *final(config) == *old(config),
        r matches Ok(req) ==> {
            &&& req == request_from(old(config).device, target_device_id, request_id, created_at)
            &&& final(config).supervision_requests@ == old(config).supervision_requests@.push(req)
            &&& final(config).supervision_relationships == old(config).supervision_relationships
            &&& final(config).device == old(config).device
        },
{
    if config.device.mode != DeviceMode::Supervisor {
        return Err(SupervisionError::NotAuthorized);
    }
    let request = SupervisionRequest {
        request_id,
        supervisor_device_id: config.device.device_id.clone(),
        supervisor_device_name: config.device.device_name.clone(),
        target_device_id,
        status: SupervisionRequestStatus::Pending,
        created_at,
    };
    config.supervision_requests.push(request.copied());
    Ok(request)
}

/// Sends a request from the local device to `target_device_id` under a new
/// random id, stamped with the current time.
pub fn send_supervision_request(config: &mut DeviceConfig, target_device_id: String) -> (r: Result<
    SupervisionRequest,
    SupervisionError,
>)
    ensures
        r is Err <==> old(config).device.mode != DeviceMode::Supervisor,
        r matches Err(e) ==> e == SupervisionError::NotAuthorized && *final(config) == *old(config),
        r matches Ok(req) ==> {
            &&& req == request_from(
                old(config).device,
                target_device_id,
                req.request_id,
                req.created_at,
            )
            &&& final(config).supervision_requests@ == old(config).supervision_requests@.push(req)
            &&& final(config).supervision_relationships == old(config).supervision_relationships
            &&& final(config).device == old(config).device
        },
{
    let request_id = new_identifier();
    let created_at = now_timestamp();
    create_request(config, target_device_id, request_id, created_at)
}

/// Marks the first request with id `request_id` as cancelled, whatever its
/// status was.
pub fn cancel_supervision_request(config: &mut DeviceConfig, request_id: &str) -> (r: Result<
    (),
    SupervisionError,
>)
    ensures
        r is Err <==> !has_selected(old(config).supervision_requests@, request_id@, false),
        r matches Err(e) ==> e == SupervisionError::NotFound && *final(config) == *old(config),
        status_set(
            old(config).supervision_requests@,
            request_id@,
            false,
            SupervisionRequestStatus::Cancelled,
            final(config).supervision_requests@,
        ),
        final(config).device == old(config).device,
        final(config).supervision_relationships == old(config).supervision_relationships,
{
    let id = String::from_str(request_id);
    match position_of(&config.supervision_requests, &id, false) {
        None => Err(SupervisionError::NotFound),
        Some(_) => {
            update_request_status(config, request_id, SupervisionRequestStatus::Cancelled);
            Ok(())
        },
    }
}

/// The request is pending and addressed to `device_id`.
pub open spec fn pending_for(r: SupervisionRequest, device_id: Seq<char>) -> bool {
    r.target_device_id@ == device_id && r.status == SupervisionRequestStatus::Pending
}

/// The requests of `reqs` still pending and addressed to `device_id`, in order.
pub open spec fn pending_requests_for(reqs: Seq<SupervisionRequest>, device_id: Seq<char>) -> Seq<
    SupervisionRequest,
> {
    reqs.filter(|r: SupervisionRequest| pending_for(r, device_id))
}

/// The requests still pending that are addressed to the local device.
pub fn get_pending_supervision_requests(config: &DeviceConfig) -> (r: Vec<SupervisionRequest>)
    ensures
        r@ == pending_requests_for(config.supervision_requests@, config.device.device_id@),
{
    let reqs = &config.supervision_requests;
    let ghost pred = |r: SupervisionRequest| pending_for(r, config.device.device_id@);
    let mut out: Vec<SupervisionRequest> = Vec::new();
    let mut i: usize = 0;
    while i < reqs.len()
        invariant
            i <= reqs@.len(),
            out@ == reqs@.subrange(0, i as int).filter(pred),
            pred == (|r: SupervisionRequest| pending_for(r, config.device.device_id@)),
        decreases reqs@.len() - i,
    {
        let r = &reqs[i];
        proof {
            reveal(Seq::filter);
            assert(reqs@.subrange(0, i + 1).drop_last() =~= reqs@.subrange(0, i as int));
        }
        if r.target_device_id == config.device.device_id && r.status
            == SupervisionRequestStatus::Pending {
            out.push(r.copied());
        }
        i = i + 1;
    }
    assert(reqs@.subrange(0, reqs@.len() as int) =~= reqs@);
    out
}

/// The position of the first pending request with id `request_id`.
pub fn find_pending_request(config: &DeviceConfig, request_id: &str) -> (r: Result<
    usize,
    SupervisionError,
>)
    ensures
        r matches Ok(i) ==> first_selected(config.supervision_requests@, i as int, request_id@, true),
        r is Err <==> !has_selected(config.supervision_requests@, request_id@, true),
        r matches Err(e) ==> e == SupervisionError::NotFound,
{
    let id = String::from_str(request_id);
    match position_of(&config.supervision_requests, &id, true) {
        Some(i) => Ok(i),
        None => Err(SupervisionError::NotFound),
    }
}

/// The request is addressed to the local device.
pub fn validate_request_target(config: &DeviceConfig, request: &SupervisionRequest) -> (r: Result<
    (),
    SupervisionError,
>)
    ensures
        r is Ok <==> request.target_device_id@ == config.device.device_id@,
        r matches Err(e) ==> e == SupervisionError::WrongTarget,
{
    if request.target_device_id != config.device.device_id {
        return Err(SupervisionError::WrongTarget);
    }
    Ok(())
}

/// The relationship that accepting `req` on `device` establishes.
pub open spec fn relationship_from(
    device: DeviceInfo,
    req: SupervisionRequest,
    relationship_id: String,
    now: String,
) -> SupervisionRelationship {
    SupervisionRelationship {
        relationship_id,
        supervisor_device_id: req.supervisor_device_id,
        supervisor_device_name: req.supervisor_device_name,
        supervised_device_id: device.device_id,
        supervised_device_name: device.device_name,
        established_at: now,
        last_sync_at: now,
    }
}

/// The relationship that accepting `request` on the local device
/// establishes, under the id `relationship_id` and the time `now`.
pub fn create_relationship_from_request(
    config: &DeviceConfig,
    request: &SupervisionRequest,
    relationship_id: String,
    now: String,
) -> (r: SupervisionRelationship)
    ensures
        r == relationship_from(config.device, *request, relationship_id, now),
{
    SupervisionRelationship {
        relationship_id,
        supervisor_device_id: request.supervisor_device_id.clone(),
        supervisor_device_name: request.supervisor_device_name.clone(),
        supervised_device_id: config.device.device_id.clone(),
        supervised_device_name: config.device.device_name.clone(),
        established_at: now.clone(),
        last_sync_at: now,
    }
}

/// The first pending request with id `id` is at `i` and addressed to the
/// local device.
pub open spec fn acceptable_at(config: DeviceConfig, i: int, id: Seq<char>) -> bool {
    &&& first_selected(config.supervision_requests@, i, id, true)
    &&& config.supervision_requests@[i].target_device_id@ == config.device.device_id@
}

/// The first pending request with id `id` is addressed to another device.
pub open spec fn misdirected(config: DeviceConfig, id: Seq<char>) -> bool {
    exists|i: int|
        first_selected(config.supervision_requests@, i, id, true)
            && (#[trigger] config.supervision_requests@[i]).target_device_id@
            != config.device.device_id@
}

/// `after` is `before` with the request at `i` accepted and `rel` added.
pub open spec fn accepted_at(
    before: DeviceConfig,
    after: DeviceConfig,
    i: int,
    rel: SupervisionRelationship,
) -> bool {
    &&& after.supervision_requests@ == before.supervision_requests@.update(
        i,
        with_status(before.supervision_requests@[i], SupervisionRequestStatus::Accepted),
    )
    &&& after.supervision_relationships@ == before.supervision_relationships@.push(rel)
    &&& after.device == before.device
}

/// `after` is `before` with the first pending request with id `id`
/// accepted, it being addressed to the local device, and with `rel` added:
/// the relationship that it proposes.
pub open spec fn accepted(
    before: DeviceConfig,
    after: DeviceConfig,
    id: Seq<char>,
    rel: SupervisionRelationship,
) -> bool {
    exists|i: int|
        acceptable_at(before, i, id) && rel == relationship_from(
            before.device,
            before.supervision_requests@[i],
            rel.relationship_id,
            rel.established_at,
        ) && #[trigger] accepted_at(before, after, i, rel)
}

/// Accepts the pending request `request_id` on the local device: the
/// request becomes accepted and the relationship it proposes, under the id
/// `relationship_id` and the time `now`, is added, both in one step.
pub fn accept_request(
    config: &mut DeviceConfig,
    request_id: &str,
    relationship_id: String,
    now: String,
) -> (r: Result<SupervisionRelationship, SupervisionError>)
    ensures
        r == Err::<SupervisionRelationship, SupervisionError>(SupervisionError::NotFound)
            <==> !has_selected(old(config).supervision_requests@, request_id@, true),
        r == Err::<SupervisionRelationship, SupervisionError>(SupervisionError::WrongTarget)
            <==> misdirected(*old(config), request_id@),
        r is Err ==> *final(config) == *old(config),
        r matches Err(e) ==> e == SupervisionError::NotFound || e == SupervisionError::WrongTarget,
        r matches Ok(rel) ==> accepted(*old(config), *final(config), request_id@, rel)
            && rel.relationship_id == relationship_id && rel.established_at == now,
{
    let i = match find_pending_request(config, request_id) {
        Ok(i) => i,
        Err(e) => return Err(e),
    };
    let ghost first = i as int;
    if let Err(e) = validate_request_target(config, &config.supervision_requests[i]) {
        return Err(e);
    }
    let relationship = create_relationship_from_request(
        config,
        &config.supervision_requests[i],
        relationship_id,
        now,
    );
    let ghost before = *config;
    config.supervision_relationships.push(relationship.copied());
    config.supervision_requests[i].status = SupervisionRequestStatus::Accepted;
    proof {
        assert(config.supervision_requests@ =~= before.supervision_requests@.update(
            first,
            with_status(before.supervision_requests@[first], SupervisionRequestStatus::Accepted),
        ));
        assert(accepted_at(*old(config), *config, first, relationship));
        assert forall|j: int|
            first_selected(old(config).supervision_requests@, j, request_id@, true) implies j
            == first by {
            lemma_first_selected_unique(old(config).supervision_requests@, j, first, request_id@, true);
        }
    }
    Ok(relationship)
}

/// Accepts the pending request `request_id` on the local device, under a new
/// random relationship id, stamped with the current time.
pub fn accept_supervision_request(config: &mut DeviceConfig, request_id: &str) -> (r: Result<
    SupervisionRelationship,
    SupervisionError,
>)
    ensures
        r == Err::<SupervisionRelationship, SupervisionError>(SupervisionError::NotFound)
            <==> !has_selected(old(config).supervision_requests@, request_id@, true),
        r == Err::<SupervisionRelationship, SupervisionError>(SupervisionError::WrongTarget)
            <==> misdirected(*old(config), request_id@),
        r is Err ==> *final(config) == *old(config),
        r matches Err(e) ==> e == SupervisionError::NotFound || e == SupervisionError::WrongTarget,
        r matches Ok(rel) ==> accepted(*old(config), *final(config), request_id@, rel),
{
    let relationship_id = new_identifier();
    let now = now_timestamp();
    accept_request(config, request_id, relationship_id, now)
}

/// The first request with id `id`, whatever its status, is addressed to
/// another device.
pub open spec fn misdirected_any(config: DeviceConfig, id: Seq<char>) -> bool {
    exists|i: int|
        first_selected(config.supervision_requests@, i, id, false)
            && (#[trigger] config.supervision_requests@[i]).target_device_id@
            != config.device.device_id@
}

/// The first request with id `id` is addressed to the local device but is
/// no longer pending.
pub open spec fn settled_here(config: DeviceConfig, id: Seq<char>) -> bool {
    exists|i: int|
        first_selected(config.supervision_requests@, i, id, false)
            && (#[trigger] config.supervision_requests@[i]).target_device_id@
            == config.device.device_id@ && config.supervision_requests@[i].status
            != SupervisionRequestStatus::Pending
}

/// Marks the first request with id `request_id` as rejected, provided it is
/// addressed to the local device and still pending. No relationship is
/// made, and a request that is no longer pending is never touched.
pub fn reject_supervision_request(config: &mut DeviceConfig, request_id: &str) -> (r: Result<
    (),
    SupervisionError,
>)
    ensures
        r == Err::<(), SupervisionError>(SupervisionError::NotFound) <==> (!has_selected(
            old(config).supervision_requests@,
            request_id@,
            false,
        ) || settled_here(*old(config), request_id@)),
        r == Err::<(), SupervisionError>(SupervisionError::WrongTarget) <==> (has_selected(
            old(config).supervision_requests@,
            request_id@,
            false,
        ) && misdirected_any(*old(config), request_id@)),
        r is Err ==> *final(config) == *old(config),
        r matches Err(e) ==> e == SupervisionError::NotFound || e == SupervisionError::WrongTarget,
        r is Ok ==> status_set(
            old(config).supervision_requests@,
            request_id@,
            false,
            SupervisionRequestStatus::Rejected,
            final(config).supervision_requests@,
        ),
        r is Ok ==> status_set(
            old(config).supervision_requests@,
            request_id@,
            true,
            SupervisionRequestStatus::Rejected,
            final(config).supervision_requests@,
        ),
        final(config).supervision_requests@.len() == old(config).supervision_requests@.len(),
        forall|k: int|
            0 <= k < old(config).supervision_requests@.len() && (#[trigger] old(
                config,
            ).supervision_requests@[k]).status != SupervisionRequestStatus::Pending
                ==> final(config).supervision_requests@[k] == old(config).supervision_requests@[k],
        final(config).device == old(config).device,
        final(config).supervision_relationships == old(config).supervision_relationships,
{
    let id = String::from_str(request_id);
    let i = match position_of(&config.supervision_requests, &id, false) {
        Some(i) => i,
        None => return Err(SupervisionError::NotFound),
    };
    let ghost reqs = old(config).supervision_requests@;
    proof {
        assert forall|j: int| first_selected(reqs, j, request_id@, false) implies j == i by {
            lemma_first_selected_unique(reqs, j, i as int, request_id@, false);
        }
    }
    if config.supervision_requests[i].target_device_id != config.device.device_id {
        return Err(SupervisionError::WrongTarget);
    }
    if config.supervision_requests[i].status != SupervisionRequestStatus::Pending {
        return Err(SupervisionError::NotFound);
    }
    proof {
        assert(first_selected(reqs, i as int, request_id@, true));
        assert forall|j: int| first_selected(reqs, j, request_id@, true) implies j == i by {
            lemma_first_selected_unique(reqs, j, i as int, request_id@, true);
        }
    }
    config.supervision_requests[i].status = SupervisionRequestStatus::Rejected;
    proof {
        assert(config.supervision_requests@ =~= reqs.update(
            i as int,
            with_status(reqs[i as int], SupervisionRequestStatus::Rejected),
        ));
    }
    Ok(())
}

/// The relationships of `rels` whose id is not `id`, in order.
pub open spec fn without_relationship(rels: Seq<SupervisionRelationship>, id: Seq<char>) -> Seq<
    SupervisionRelationship,
> {
    rels.filter(|r: SupervisionRelationship| r.relationship_id@ != id)
}

/// Some relationship of `rels` has the id `id`.
pub open spec fn has_relationship(rels: Seq<SupervisionRelationship>, id: Seq<char>) -> bool {
    exists|j: int| 0 <= j < rels.len() && (#[trigger] rels[j]).relationship_id@ == id
}

/// Deletes every relationship with id `relationship_id`; fails when there
/// was none.
pub fn remove_supervision_relationship(config: &mut DeviceConfig, relationship_id: &str) -> (r:
    Result<(), SupervisionError>)
    ensures
        r is Err <==> !has_relationship(old(config).supervision_relationships@, relationship_id@),
        r matches Err(e) ==> e == SupervisionError::NotFound && *final(config) == *old(config),
        r is Ok ==> final(config).supervision_relationships@ == without_relationship(
            old(config).supervision_relationships@,
            relationship_id@,
        ),
        final(config).device == old(config).device,
        final(config).supervision_requests == old(config).supervision_requests,
{
    let id = String::from_str(relationship_id);
    let rels = &config.supervision_relationships;
    let ghost pred = |r: SupervisionRelationship| r.relationship_id@ != relationship_id@;
    let mut kept: Vec<SupervisionRelationship> = Vec::new();
    let mut found = false;
    let mut i: usize = 0;
    while i < rels.len()
        invariant
            i <= rels@.len(),
            kept@ == rels@.subrange(0, i as int).filter(pred),
            pred == (|r: SupervisionRelationship| r.relationship_id@ != relationship_id@),
            id@ == relationship_id@,
            found <==> exists|j: int| 0 <= j < i && (#[trigger] rels@[j]).relationship_id@ == id@,
        decreases rels@.len() - i,
    {
        let r = &rels[i];
        proof {
            reveal(Seq::filter);
            assert(rels@.subrange(0, i + 1).drop_last() =~= rels@.subrange(0, i as int));
        }
        if r.relationship_id == id {
            found = true;
        } else {
            kept.push(r.copied());
        }
        i = i + 1;
    }
    assert(rels@.subrange(0, rels@.len() as int) =~= rels@);
    if !found {
        return Err(SupervisionError::NotFound);
    }
    config.supervision_relationships = kept;
    Ok(())
}

/// `rel` links the same two devices that `req` proposed to link.
pub open spec fn links(rel: SupervisionRelationship, req: SupervisionRequest) -> bool {
    rel.supervisor_device_id@ == req.supervisor_device_id@ && rel.supervised_device_id@
        == req.target_device_id@
}

/// Every accepted request has a relationship linking its two devices, and
/// every relationship links the devices of some accepted request.
pub open spec fn ledger_consistent(config: DeviceConfig) -> bool {
    let reqs = config.supervision_requests@;
    let rels = config.supervision_relationships@;
    &&& forall|i: int|
        0 <= i < reqs.len() && (#[trigger] reqs[i]).status == SupervisionRequestStatus::Accepted
            ==> exists|j: int| 0 <= j < rels.len() && links(#[trigger] rels[j], reqs[i])
    &&& forall|j: int|
        0 <= j < rels.len() ==> exists|i: int|
            0 <= i < reqs.len() && (#[trigger] reqs[i]).status
                == SupervisionRequestStatus::Accepted && links(#[trigger] rels[j], reqs[i])
}

/// Accepting a request keeps the ledger consistent: no accepted request is
/// left without its relationship, and no relationship without its accepted
/// request.
pub proof fn lemma_accept_keeps_ledger_consistent(
    before: DeviceConfig,
    after: DeviceConfig,
    request_id: Seq<char>,
    rel: SupervisionRelationship,
)
    requires
        ledger_consistent(before),
        accepted(before, after, request_id, rel),
    ensures
        ledger_consistent(after),
{
    let i = choose|i: int|
        acceptable_at(before, i, request_id) && rel == relationship_from(
            before.device,
            before.supervision_requests@[i],
            rel.relationship_id,
            rel.established_at,
        ) && #[trigger] accepted_at(before, after, i, rel);
    let reqs = before.supervision_requests@;
    let rels = before.supervision_relationships@;
    let reqs2 = after.supervision_requests@;
    let rels2 = after.supervision_relationships@;
    assert(links(rels2[rels.len() as int], reqs2[i]));
    assert forall|k: int|
        0 <= k < reqs2.len() && (#[trigger] reqs2[k]).status == SupervisionRequestStatus::Accepted
            implies exists|j: int| 0 <= j < rels2.len() && links(#[trigger] rels2[j], reqs2[k]) by {
        if k == i {
            assert(links(rels2[rels.len() as int], reqs2[k]));
        } else {
            assert(reqs2[k] == reqs[k]);
            let j = choose|j: int| 0 <= j < rels.len() && links(#[trigger] rels[j], reqs[k]);
            assert(rels2[j] == rels[j]);
            assert(links(rels2[j], reqs2[k]));
        }
    }
    assert forall|j: int| 0 <= j < rels2.len() implies exists|k: int|
        0 <= k < reqs2.len() && (#[trigger] reqs2[k]).status == SupervisionRequestStatus::Accepted
            && links(#[trigger] rels2[j], reqs2[k]) by {
        if j == rels.len() {
            assert(reqs2[i].status == SupervisionRequestStatus::Accepted);
            assert(links(rels2[j], reqs2[i]));
        } else {
            assert(rels2[j] == rels[j]);
            let k = choose|k: int|
                0 <= k < reqs.len() && (#[trigger] reqs[k]).status
                    == SupervisionRequestStatus::Accepted && links(#[trigger] rels[j], reqs[k]);
            assert(k != i);
            assert(reqs2[k] == reqs[k]);
            assert(links(rels2[j], reqs2[k]));
        }
    }
}

/// Once every request with a given id has left the pending state, no
/// acceptance and no rejection of that id can succeed: the rejection fails
/// as not found or as addressed elsewhere, and both leave the ledger as it
/// was.
pub proof fn lemma_settled_request_not_acceptable(config: DeviceConfig, request_id: Seq<char>)
    requires
        forall|k: int|
            0 <= k < config.supervision_requests@.len() && (
            #[trigger] config.supervision_requests@[k]).request_id@ == request_id
                ==> config.supervision_requests@[k].status != SupervisionRequestStatus::Pending,
    ensures
        !has_selected(config.supervision_requests@, request_id, true),
        !has_selected(config.supervision_requests@, request_id, false) || settled_here(
            config,
            request_id,
        ) || misdirected_any(config, request_id),
{
    let reqs = config.supervision_requests@;
    if has_selected(reqs, request_id, false) {
        let k = choose|k: int| 0 <= k < reqs.len() && request_selected(#[trigger] reqs[k], request_id, false);
        lemma_first_exists(reqs, k, request_id, false);
        let f = choose|f: int| first_selected(reqs, f, request_id, false);
        assert(reqs[f].status != SupervisionRequestStatus::Pending);
        if reqs[f].target_device_id@ == config.device.device_id@ {
            assert(settled_here(config, request_id));
        } else {
            assert(misdirected_any(config, request_id));
        }
    }
    if has_selected(config.supervision_requests@, request_id, true) {
        let k = choose|k: int|
            0 <= k < config.supervision_requests@.len() && request_selected(
                #[trigger] config.supervision_requests@[k],
                request_id,
                true,
            );
        assert(config.supervision_requests@[k].request_id@ == request_id);
    }
}

/// Number of relationships of `rels` with id `id`.
pub open spec fn count_with_id(rels: Seq<SupervisionRelationship>, id: Seq<char>) -> nat
    decreases rels.len(),
{
    if rels.len() == 0 {
        0
    } else {
        count_with_id(rels.drop_last(), id) + if rels.last().relationship_id@ == id {
            1nat
        } else {
            0nat
        }
    }
}

/// Removing relationships by id leaves none with that id, so removing the
/// same id again fails as not found; and when exactly one relationship had
/// that id, exactly one is gone.
pub proof fn lemma_remove_relationship_once(rels: Seq<SupervisionRelationship>, id: Seq<char>)
    ensures
        !has_relationship(without_relationship(rels, id), id),
        without_relationship(rels, id).len() == rels.len() - count_with_id(rels, id),
        has_relationship(rels, id) <==> count_with_id(rels, id) > 0,
    decreases rels.len(),
{
    let pred = |r: SupervisionRelationship| r.relationship_id@ != id;
    reveal(Seq::filter);
    if rels.len() > 0 {
        let init = rels.drop_last();
        lemma_remove_relationship_once(init, id);
        assert(rels.filter(pred) == if pred(rels.last()) {
            init.filter(pred).push(rels.last())
        } else {
            init.filter(pred)
        });
        if has_relationship(rels, id) {
            let j = choose|j: int| 0 <= j < rels.len() && (#[trigger] rels[j]).relationship_id@ == id;
            if j < init.len() {
                assert(init[j] == rels[j]);
            }
        }
        if has_relationship(init, id) {
            let j = choose|j: int| 0 <= j < init.len() && (#[trigger] init[j]).relationship_id@ == id;
            assert(rels[j] == init[j]);
        }
        if has_relationship(without_relationship(rels, id), id) {
            let f = without_relationship(rels, id);
            let j = choose|j: int| 0 <= j < f.len() && (#[trigger] f[j]).relationship_id@ == id;
            if j < init.filter(pred).len() {
                assert(f[j] == init.filter(pred)[j]);
            }
        }
    }
}

/// Removing a relationship whose id is held by no other shrinks the
/// relationships by exactly one; removing an id that none holds changes
/// nothing.
pub proof fn lemma_remove_relationship_count(rels: Seq<SupervisionRelationship>, id: Seq<char>)
    ensures
        count_with_id(rels, id) == 1 ==> without_relationship(rels, id).len() == rels.len() - 1,
        !has_relationship(rels, id) ==> without_relationship(rels, id) == rels,
{
    lemma_remove_relationship_once(rels, id);
    if !has_relationship(rels, id) {
        lemma_filter_all_kept(rels, id);
    }
}

/// With no relationship holding `id`, the filter keeps every one.
proof fn lemma_filter_all_kept(rels: Seq<SupervisionRelationship>, id: Seq<char>)
    requires
        !has_relationship(rels, id),
    ensures
        without_relationship(rels, id) == rels,
    decreases rels.len(),
{
    reveal(Seq::filter);
    if rels.len() > 0 {
        let init = rels.drop_last();
        assert(!has_relationship(init, id)) by {
            if has_relationship(init, id) {
                let j = choose|j: int| 0 <= j < init.len() && (#[trigger] init[j]).relationship_id@ == id;
                assert(rels[j] == init[j]);
            }
        }
        lemma_filter_all_kept(init, id);
        assert(rels.last().relationship_id@ != id) by {
            assert(rels[rels.len() - 1] == rels.last());
        }
        assert(init.push(rels.last()) =~= rels);
    }
}

/// When every pending request with a given id is addressed to another
/// device, acceptance and rejection of that id fail as addressed elsewhere.
pub proof fn lemma_foreign_request_misdirected(config: DeviceConfig, request_id: Seq<char>)
    requires
        has_selected(config.supervision_requests@, request_id, true),
        forall|k: int|
            0 <= k < config.supervision_requests@.len() && request_selected(
                #[trigger] config.supervision_requests@[k],
                request_id,
                true,
            ) ==> config.supervision_requests@[k].target_device_id@ != config.device.device_id@,
    ensures
        misdirected(config, request_id),
{
    let reqs = config.supervision_requests@;
    let k = choose|k: int| 0 <= k < reqs.len() && request_selected(#[trigger] reqs[k], request_id, true);
    lemma_first_exists(reqs, k, request_id, true);
    let f = choose|f: int| first_selected(reqs, f, request_id, true);
    assert(reqs[f].target_device_id@ != config.device.device_id@);
}

/// A selected position has a first selected position at or before it.
proof fn lemma_first_exists(reqs: Seq<SupervisionRequest>, k: int, id: Seq<char>, pending_only: bool)
    requires
        0 <= k < reqs.len(),
        request_selected(reqs[k], id, pending_only),
    ensures
        exists|f: int| first_selected(reqs, f, id, pending_only),
    decreases k,
{
    if exists|j: int| 0 <= j < k && request_selected(#[trigger] reqs[j], id, pending_only) {
        let j = choose|j: int| 0 <= j < k && request_selected(#[trigger] reqs[j], id, pending_only);
        lemma_first_exists(reqs, j, id, pending_only);
    } else {
        assert(first_selected(reqs, k, id, pending_only));
    }
}

} // verus!
