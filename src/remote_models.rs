//! The shapes in which the remote service sends devices, check-ins and
//! supervision records. Its field names differ from the local records.
use vstd::prelude::*;

verus! {

/// A device's mode as the remote service names it.
#[derive(Debug, Clone, Copy, PartialEq, Eq, Structural)]
pub enum DeviceMode {
    Signin,
    Supervisor,
}

/// A device as the remote service knows it.
#[derive(Debug, Clone)]
pub struct Device {
    pub device_id: String,
    pub device_name: String,
    pub imei: Option<String>,
    pub mode: DeviceMode,
    pub created_at: String,
    pub last_seen_at: String,
    pub last_name_updated_at: Option<String>,
}

/// One check-in recorded by the remote service.
#[derive(Debug, Clone)]
pub struct SigninRecord {
    pub device_id: String,
    pub date: String,
    pub streak: i32,
}

/// A device's standing as the remote service reports it to a supervisor.
#[derive(Debug, Clone)]
pub struct DeviceStatus {
    pub device_id: String,
    pub device_name: String,
    pub mode: DeviceMode,
    pub last_signin: Option<String>,
    pub streak: i32,
}

/// A request's status as the remote service names it; it has no
/// cancelled state.
#[derive(Debug, Clone, Copy, PartialEq, Eq, Structural)]
pub enum SupervisionStatus {
    Pending,
    Accepted,
    Rejected,
}

/// A supervision request as the remote service sends it.
#[derive(Debug, Clone)]
pub struct SupervisionRequest {
    pub request_id: String,
    pub supervisor_id: String,
    pub supervisor_name: Option<String>,
    pub target_id: String,
    pub target_name: Option<String>,
    pub status: SupervisionStatus,
    pub created_at: String,
}

/// A supervision relationship as the remote service sends it.
#[derive(Debug, Clone)]
pub struct SupervisionRelation {
    pub relation_id: String,
    pub supervisor_id: String,
    pub supervisor_name: Option<String>,
    pub target_id: String,
    pub target_name: Option<String>,
    pub created_at: String,
}

/// The remote service's answer to a check-in.
#[derive(Debug, Clone)]
pub struct SigninResponse {
    pub streak: i32,
}

} // verus!
