//! The calls the remote service offers: where each one goes, and how its
//! answer is judged.
use vstd::prelude::*;
use vstd::string::*;
use vstd::utf8::encode_utf8;

use crate::remote_models::DeviceMode;

verus! {

/// The address of the remote service.
pub const API_BASE_URL: &'static str = "http://localhost:3000";

/// The address of the quotation service.
pub const QUOTE_URL: &'static str = "https://v1.hitokoto.cn/";

/// The HTTP method of a call.
#[derive(Debug, Clone, Copy, PartialEq, Eq, Structural)]
pub enum HttpMethod {
    Get,
    Post,
    Patch,
    Delete,
}

/// A call to the remote service, with the ids or text that its path holds.
#[derive(Debug, Clone)]
pub enum ApiCall {
    RegisterDevice,
    GetDevice(String),
    UpdateDeviceName(String),
    DeviceSignin(String),
    GetDeviceStatus(String),
    SearchDevices(String),
    SendSupervisionRequest,
    GetPendingRequests(String),
    AcceptSupervisionRequest,
    RejectSupervisionRequest,
    GetSupervisionList(String),
    RemoveSupervisionRelationship(String),
}

/// The character is left as it is by percent-encoding.
pub open spec fn is_unreserved(c: char) -> bool {
    ('a' <= c && c <= 'z') || ('A' <= c && c <= 'Z') || ('0' <= c && c <= '9') || c == '-' || c
        == '_' || c == '.' || c == '~'
}

/// An upper-case hexadecimal digit.
pub open spec fn hex_digit(n: int) -> char {
    seq!['0', '1', '2', '3', '4', '5', '6', '7', '8', '9', 'A', 'B', 'C', 'D', 'E', 'F'][n]
}

/// Each byte written as `%` and two upper-case hexadecimal digits.
pub open spec fn percent_bytes(bytes: Seq<u8>) -> Seq<char>
    decreases bytes.len(),
{
    if bytes.len() == 0 {
        Seq::empty()
    } else {
        seq!['%', hex_digit(bytes[0] as int / 16), hex_digit(bytes[0] as int % 16)]
            + percent_bytes(bytes.drop_first())
    }
}

/// The text percent-encoded: unreserved characters stay, every byte of the
/// UTF-8 text of any other character becomes `%XX`.
pub open spec fn url_encoded(s: Seq<char>) -> Seq<char>
    decreases s.len(),
{
    if s.len() == 0 {
        Seq::empty()
    } else {
        (if is_unreserved(s[0]) {
            seq![s[0]]
        } else {
            percent_bytes(encode_utf8(seq![s[0]]))
        }) + url_encoded(s.drop_first())
    }
}

/// `s` percent-encoded for use in a query.
///
/// Relies on `urlencoding::encode`: it keeps the bytes of ASCII letters,
/// digits and `-`, `.`, `_`, `~`, and writes every other byte of the UTF-8
/// text as `%` with two upper-case hexadecimal digits. Every byte of a
/// character outside ASCII is at least 0x80, so such a character is encoded
/// whole.
#[verifier::external_body]
fn encode_query(s: &str) -> (r: String)
    ensures
        r@ == url_encoded(s@),
{
    urlencoding::encode(s).into_owned()
}

impl ApiCall {
    /// The method of the call.
    pub open spec fn spec_method(&self) -> HttpMethod {
        match self {
            ApiCall::RegisterDevice => HttpMethod::Post,
            ApiCall::UpdateDeviceName(_) => HttpMethod::Patch,
            ApiCall::DeviceSignin(_) => HttpMethod::Post,
            ApiCall::SendSupervisionRequest => HttpMethod::Post,
            ApiCall::AcceptSupervisionRequest => HttpMethod::Post,
            ApiCall::RejectSupervisionRequest => HttpMethod::Post,
            ApiCall::RemoveSupervisionRelationship(_) => HttpMethod::Delete,
            _ => HttpMethod::Get,
        }
    }

    /// The path of the call on the remote service.
    pub open spec fn spec_path(&self) -> Seq<char> {
        match self {
            ApiCall::RegisterDevice => "/devices/register"@,
            ApiCall::GetDevice(id) => "/devices/"@ + id@,
            ApiCall::UpdateDeviceName(id) => "/devices/"@ + id@ + "/name"@,
            ApiCall::DeviceSignin(id) => "/devices/"@ + id@ + "/signin"@,
            ApiCall::GetDeviceStatus(id) => "/devices/"@ + id@ + "/status"@,
            ApiCall::SearchDevices(q) => "/search/devices?q="@ + url_encoded(q@),
            ApiCall::SendSupervisionRequest => "/supervision/request"@,
            ApiCall::GetPendingRequests(id) => "/supervision/pending/"@ + id@,
            ApiCall::AcceptSupervisionRequest => "/supervision/accept"@,
            ApiCall::RejectSupervisionRequest => "/supervision/reject"@,
            ApiCall::GetSupervisionList(id) => "/supervision/list/"@ + id@,
            ApiCall::RemoveSupervisionRelationship(id) => "/supervision/"@ + id@,
        }
    }

    /// The method of the call.
    pub fn method(&self) -> (r: HttpMethod)
        ensures
            r == self.spec_method(),
    {
        match self {
            ApiCall::RegisterDevice => HttpMethod::Post,
            ApiCall::UpdateDeviceName(_) => HttpMethod::Patch,
            ApiCall::DeviceSignin(_) => HttpMethod::Post,
            ApiCall::SendSupervisionRequest => HttpMethod::Post,
            ApiCall::AcceptSupervisionRequest => HttpMethod::Post,
            ApiCall::RejectSupervisionRequest => HttpMethod::Post,
            ApiCall::RemoveSupervisionRelationship(_) => HttpMethod::Delete,
            _ => HttpMethod::Get,
        }
    }

    /// The path of the call on the remote service.
    pub fn path(&self) -> (r: String)
        ensures
            r@ == self.spec_path(),
    {
        match self {
            ApiCall::RegisterDevice => String::from_str("/devices/register"),
            ApiCall::GetDevice(id) => String::from_str("/devices/").concat(id.as_str()),
            ApiCall::UpdateDeviceName(id) => String::from_str("/devices/").concat(id.as_str()).concat(
                "/name",
            ),
            ApiCall::DeviceSignin(id) => String::from_str("/devices/").concat(id.as_str()).concat(
                "/signin",
            ),
            ApiCall::GetDeviceStatus(id) => String::from_str("/devices/").concat(id.as_str()).concat(
                "/status",
            ),
            ApiCall::SearchDevices(q) => {
                let encoded = encode_query(q.as_str());
                String::from_str("/search/devices?q=").concat(encoded.as_str())
            },
            ApiCall::SendSupervisionRequest => String::from_str("/supervision/request"),
            ApiCall::GetPendingRequests(id) => String::from_str("/supervision/pending/").concat(
                id.as_str(),
            ),
            ApiCall::AcceptSupervisionRequest => String::from_str("/supervision/accept"),
            ApiCall::RejectSupervisionRequest => String::from_str("/supervision/reject"),
            ApiCall::GetSupervisionList(id) => String::from_str("/supervision/list/").concat(
                id.as_str(),
            ),
            ApiCall::RemoveSupervisionRelationship(id) => String::from_str("/supervision/").concat(
                id.as_str(),
            ),
        }
    }

    /// The full address of the call.
    pub fn url(&self) -> (r: String)
        ensures
            r@ == API_BASE_URL@ + self.spec_path(),
    {
        let path = self.path();
        String::from_str(API_BASE_URL).concat(path.as_str())
    }
}

/// A status code in the success class, 200 to 299.
pub open spec fn is_success_code(code: int) -> bool {
    200 <= code <= 299
}

/// What an answer of the remote service with status `status` and body
/// `body` comes to: the body, to be read as the result, on success; else
/// an error that quotes the status and the body.
pub fn judge_response(status: u16, status_text: &str, body: String) -> (r: Result<String, String>)
    ensures
        is_success_code(status as int) ==> r == Ok::<String, String>(body),
        !is_success_code(status as int) ==> (r matches Err(e) && e@ == "API error "@ + status_text@
            + ": "@ + body@),
{
    if 200 <= status && status <= 299 {
        Ok(body)
    } else {
        Err(String::from_str("API error ").concat(status_text).concat(": ").concat(body.as_str()))
    }
}

/// The mode that a registration names: `signin` or `supervisor`.
pub fn parse_device_mode(mode: &str) -> (r: Result<DeviceMode, String>)
    ensures
        mode@ == "signin"@ ==> r == Ok::<DeviceMode, String>(DeviceMode::Signin),
        mode@ == "supervisor"@ ==> r == Ok::<DeviceMode, String>(DeviceMode::Supervisor),
        mode@ != "signin"@ && mode@ != "supervisor"@ ==> (r matches Err(e) && e@
            == "Invalid device mode"@),
{
    let text = String::from_str(mode);
    proof {
        reveal_strlit("signin");
        reveal_strlit("supervisor");
        assert("signin"@[1] != "supervisor"@[1]);
    }
    if text == String::from_str("signin") {
        Ok(DeviceMode::Signin)
    } else if text == String::from_str("supervisor") {
        Ok(DeviceMode::Supervisor)
    } else {
        Err(String::from_str("Invalid device mode"))
    }
}

} // verus!
