//! The records that the library reads and writes.
use vstd::prelude::*;
use vstd::string::*;
use vstd::utf8::{encode_utf8, encode_utf8_valid_utf8, is_char_boundary};

use crate::calendar::now_timestamp;

verus! {

/// A user's check-in record: the last day checked in, the length of the
/// current run of consecutive days, and the days checked in during that run.
#[derive(Debug, Clone)]
pub struct SigninData {
    pub name: String,
    pub last_signin_date: String,
    pub streak: i32,
    pub signin_history: Vec<String>,
}

/// The texts of a list of strings.
pub open spec fn texts(v: Seq<String>) -> Seq<Seq<char>> {
    v.map_values(|s: String| s@)
}

/// A copy of a list of strings, element by element.
pub fn copy_strings(v: &Vec<String>) -> (r: Vec<String>)
    ensures
        r@ == v@,
{
    let mut r: Vec<String> = Vec::new();
    let mut i: usize = 0;
    while i < v.len()
        invariant
            i <= v@.len(),
            r@ == v@.subrange(0, i as int),
        decreases v@.len() - i,
    {
        r.push(v[i].clone());
        i = i + 1;
    }
    assert(r@ =~= v@);
    r
}

/// The content of a check-in record.
pub struct SigninView {
    pub name: Seq<char>,
    pub last_date: Seq<char>,
    pub streak: int,
    pub history: Seq<Seq<char>>,
}

impl View for SigninData {
    type V = SigninView;

    open spec fn view(&self) -> SigninView {
        SigninView {
            name: self.name@,
            last_date: self.last_signin_date@,
            streak: self.streak as int,
            history: texts(self.signin_history@),
        }
    }
}

impl SigninData {
    /// A copy of this record.
    pub fn copied(&self) -> (r: SigninData)
        ensures
            r@ == self@,
    {
        SigninData {
            name: self.name.clone(),
            last_signin_date: self.last_signin_date.clone(),
            streak: self.streak,
            signin_history: copy_strings(&self.signin_history),
        }
    }
}

/// What a device does: record its own check-ins, or supervise others.
#[derive(Debug, Clone, Copy, PartialEq, Eq, Structural)]
pub enum DeviceMode {
    /// Records its own check-ins; it may be supervised.
    Signin,
    /// Sends supervision requests and watches the devices it supervises.
    Supervisor,
}

/// The local device's identity.
#[derive(Debug, Clone)]
pub struct DeviceInfo {
    pub device_id: String,
    pub device_name: String,
    pub imei: Option<String>,
    pub mode: DeviceMode,
    pub created_at: String,
}

/// Where a supervision request stands. Every state but `Pending` is final.
#[derive(Debug, Clone, Copy, PartialEq, Eq, Structural)]
pub enum SupervisionRequestStatus {
    Pending,
    Accepted,
    Rejected,
    Cancelled,
}

/// A supervisor device's proposal to supervise a target device.
#[derive(Debug, Clone)]
pub struct SupervisionRequest {
    pub request_id: String,
    pub supervisor_device_id: String,
    pub supervisor_device_name: String,
    pub target_device_id: String,
    pub status: SupervisionRequestStatus,
    pub created_at: String,
}

impl SupervisionRequest {
    /// A copy of this request.
    pub fn copied(&self) -> (r: SupervisionRequest)
        ensures
            r == *self,
    {
        SupervisionRequest {
            request_id: self.request_id.clone(),
            supervisor_device_id: self.supervisor_device_id.clone(),
            supervisor_device_name: self.supervisor_device_name.clone(),
            target_device_id: self.target_device_id.clone(),
            status: self.status,
            created_at: self.created_at.clone(),
        }
    }
}

/// A standing link: the supervisor may watch the supervised device.
#[derive(Debug, Clone)]
pub struct SupervisionRelationship {
    pub relationship_id: String,
    pub supervisor_device_id: String,
    pub supervisor_device_name: String,
    pub supervised_device_id: String,
    pub supervised_device_name: String,
    pub established_at: String,
    pub last_sync_at: String,
}

impl SupervisionRelationship {
    /// A copy of this relationship.
    pub fn copied(&self) -> (r: SupervisionRelationship)
        ensures
            r == *self,
    {
        SupervisionRelationship {
            relationship_id: self.relationship_id.clone(),
            supervisor_device_id: self.supervisor_device_id.clone(),
            supervisor_device_name: self.supervisor_device_name.clone(),
            supervised_device_id: self.supervised_device_id.clone(),
            supervised_device_name: self.supervised_device_name.clone(),
            established_at: self.established_at.clone(),
            last_sync_at: self.last_sync_at.clone(),
        }
    }
}

/// What a supervisor sees of one supervised device.
#[derive(Debug, Clone)]
pub struct DeviceStatus {
    pub device_id: String,
    pub device_name: String,
    pub last_signin_date: String,
    pub streak: i32,
    pub is_signed_in_today: bool,
    pub last_sync_at: String,
}

/// A supervisor's devices together with its requests still pending.
#[derive(Debug, Clone)]
pub struct SupervisorStatus {
    pub supervisor_device_id: String,
    pub supervised_devices: Vec<DeviceStatus>,
    pub pending_requests: Vec<SupervisionRequest>,
}

/// A quotation sent along with a check-in message.
#[derive(Debug, Clone)]
pub struct Quote {
    pub text: String,
    pub author: String,
}

/// Where and whether check-in messages are mailed.
#[derive(Debug, Clone)]
pub struct EmailConfig {
    pub enabled: bool,
    pub to_email: String,
    pub smtp_server: String,
    pub smtp_port: u16,
    pub smtp_username: String,
    pub smtp_password: String,
    pub from_email: String,
}

impl Default for EmailConfig {
    /// Mailing switched off, with a common relay and its submission port.
    fn default() -> (r: EmailConfig)
        ensures
            !r.enabled,
            r.to_email@ == Seq::<char>::empty(),
            r.smtp_server@ == "smtp.gmail.com"@,
            r.smtp_port == 587,
            r.smtp_username@ == Seq::<char>::empty(),
            r.smtp_password@ == Seq::<char>::empty(),
            r.from_email@ == Seq::<char>::empty(),
    {
        EmailConfig {
            enabled: false,
            to_email: String::new(),
            smtp_server: String::from_str("smtp.gmail.com"),
            smtp_port: 587,
            smtp_username: String::new(),
            smtp_password: String::new(),
            from_email: String::new(),
        }
    }
}

/// The local device together with its supervision ledger: the requests it
/// has sent or received, and the relationships that stand.
#[derive(Debug, Clone)]
pub struct DeviceConfig {
    pub device: DeviceInfo,
    pub supervision_requests: Vec<SupervisionRequest>,
    pub supervision_relationships: Vec<SupervisionRelationship>,
}

/// The text that a new device's name starts with, before part of its id.
pub const DEVICE_NAME_PREFIX: &'static str = "设备-";

/// The UTF-8 text of a device id has at least eight bytes, and a character
/// ends right after the eighth.
pub open spec fn has_short_id(device_id: Seq<char>) -> bool {
    &&& encode_utf8(device_id).len() >= 8
    &&& is_char_boundary(encode_utf8(device_id), 8)
}

/// The UTF-8 text of the name that a new device gets from its id: the
/// prefix, then the first eight bytes of the id.
pub open spec fn default_device_name_bytes(device_id: Seq<char>) -> Seq<u8> {
    encode_utf8(DEVICE_NAME_PREFIX@) + encode_utf8(device_id).subrange(0, 8)
}

/// The UTF-8 text of two texts one after the other is the UTF-8 text of
/// the first followed by that of the second.
pub proof fn lemma_encode_utf8_concat(a: Seq<char>, b: Seq<char>)
    ensures
        encode_utf8(a + b) == encode_utf8(a) + encode_utf8(b),
    decreases a.len(),
{
    if a.len() == 0 {
        assert(a + b =~= b);
        assert(encode_utf8(a) =~= Seq::<u8>::empty());
        assert(encode_utf8(a) + encode_utf8(b) =~= encode_utf8(b));
    } else {
        lemma_encode_utf8_concat(a.drop_first(), b);
        assert((a + b).drop_first() =~= a.drop_first() + b);
        assert((a + b)[0] == a[0]);
        assert(encode_utf8(a + b) =~= encode_utf8(a) + encode_utf8(b));
    }
}

impl DeviceConfig {
    /// A fresh configuration for the device `device_id`, created at
    /// `created_at`: in check-in mode, with no requests or relationships.
    pub fn with_created_at(device_id: String, created_at: String) -> (r: DeviceConfig)
        requires
            has_short_id(device_id@),
        ensures
            r.device.device_id == device_id,
            encode_utf8(r.device.device_name@) == default_device_name_bytes(device_id@),
            r.device.imei is None,
            r.device.mode == DeviceMode::Signin,
            r.device.created_at == created_at,
            r.supervision_requests@.len() == 0,
            r.supervision_relationships@.len() == 0,
    {
        proof {
            encode_utf8_valid_utf8(device_id@);
        }
        let (short_id, _) = device_id.as_str().split_at(8);
        let name = String::from_str(DEVICE_NAME_PREFIX).concat(short_id);
        proof {
            lemma_encode_utf8_concat(DEVICE_NAME_PREFIX@, short_id@);
        }
        DeviceConfig {
            device: DeviceInfo {
                device_id,
                device_name: name,
                imei: None,
                mode: DeviceMode::Signin,
                created_at,
            },
            supervision_requests: Vec::new(),
            supervision_relationships: Vec::new(),
        }
    }

    /// A fresh configuration for the device `device_id`, created now.
    pub fn new(device_id: String) -> (r: DeviceConfig)
        requires
            has_short_id(device_id@),
        ensures
            r.device.device_id == device_id,
            encode_utf8(r.device.device_name@) == default_device_name_bytes(device_id@),
            r.device.imei is None,
            r.device.mode == DeviceMode::Signin,
            r.supervision_requests@.len() == 0,
            r.supervision_relationships@.len() == 0,
    {
        let now = now_timestamp();
        DeviceConfig::with_created_at(device_id, now)
    }
}

/// A quotation as the quote service sends it.
#[derive(Debug, Clone)]
pub struct HitokotoResponse {
    pub hitokoto: String,
    pub from: String,
    pub from_who: Option<String>,
}

} // verus!
