//! The bot's control plane: the service switch, the handling of proposals,
//! and what the bot tells about itself.
use vstd::prelude::*;
use crate::identity::{principal_text_of, Identity, ANONYMOUS_TAG, MAX_IDENTITY_BYTES};
use vstd::string::*;

verus! {

pub const START_METHOD: &'static str = "start_x_bot";
pub const STOP_METHOD: &'static str = "stop_x_bot";

/// Whether a background service runs.
#[derive(Debug, Clone, Copy, PartialEq, Eq, Structural)]
pub enum ServiceStatus {
    Stopped,
    Running,
}

impl Default for ServiceStatus {
    fn default() -> (r: ServiceStatus)
        ensures
            r == ServiceStatus::Stopped,
    {
        ServiceStatus::Stopped
    }
}

/// The status that a proposal's method asks for: `Running` for the start
/// method, `Stopped` for the stop method, and an error naming any other.
pub fn proposal_status(method: &str) -> (r: Result<ServiceStatus, String>)
    ensures
        method@ == START_METHOD@ ==> r == Ok::<ServiceStatus, String>(ServiceStatus::Running),
        method@ == STOP_METHOD@ ==> r == Ok::<ServiceStatus, String>(ServiceStatus::Stopped),
        method@ != START_METHOD@ && method@ != STOP_METHOD@ ==> (r matches Err(m)
            && m@ == "unsupported method "@ + method@),
{
    proof {
        reveal_strlit("start_x_bot");
        reveal_strlit("stop_x_bot");
        assert(START_METHOD@[2] != STOP_METHOD@[2]);
    }
    let m = method.to_owned();
    if m == String::from_str(START_METHOD) {
        Ok(ServiceStatus::Running)
    } else if m == String::from_str(STOP_METHOD) {
        Ok(ServiceStatus::Stopped)
    } else {
        let mut msg = String::from_str("unsupported method ");
        msg.append(method);
        Err(msg)
    }
}

/// The bytes of the principal that text names, if it names one.
pub uninterp spec fn principal_parse_of(text: Seq<char>) -> Option<Seq<u8>>;

/// Relies on `candid::Principal::from_text` and `Principal::as_slice`; a
/// principal holds at most `MAX_IDENTITY_BYTES` bytes.
#[verifier::external_body]
fn principal_from_text(text: &str) -> (r: Option<Vec<u8>>)
    ensures
        match r {
            Some(b) => principal_parse_of(text@) == Some(b@) && b@.len() <= MAX_IDENTITY_BYTES,
            None => principal_parse_of(text@) is None,
        },
{
    match candid::Principal::from_text(text) {
        Ok(p) => Some(p.as_slice().to_vec()),
        Err(_) => None,
    }
}

/// The caller that a request names in its caller header: the principal the
/// header's text names, or the anonymous principal when the header is absent
/// or names none.
pub fn caller_from_header(header: Option<&str>) -> (r: Identity)
    ensures
        r.wf(),
        r@ == match header {
            Some(t) => match principal_parse_of(t@) {
                Some(b) => b,
                None => seq![ANONYMOUS_TAG],
            },
            None => seq![ANONYMOUS_TAG],
        },
{
    match header {
        Some(t) => match principal_from_text(t) {
            Some(bytes) => match Identity::from_bytes(bytes) {
                Some(id) => id,
                None => Identity::anonymous(),
            },
            None => Identity::anonymous(),
        },
        None => Identity::anonymous(),
    }
}

/// What the bot tells about itself.
#[derive(Debug)]
pub struct AppInformation {
    pub id: Identity,
    pub name: String,
    pub start_time_ms: u64,
    pub default_agent: String,
    pub object_store_client: Option<Identity>,
    pub object_store_canister: Option<Identity>,
    pub caller: Identity,
}

/// `AppInformation` with every principal in its textual form.
#[derive(Debug)]
pub struct AppInformationJSON {
    pub id: String,
    pub name: String,
    pub start_time_ms: u64,
    pub default_agent: String,
    pub object_store_client: Option<String>,
    pub object_store_canister: Option<String>,
    pub caller: String,
}

/// The text of an optional principal.
pub open spec fn optional_text(p: Option<Identity>) -> Option<Seq<char>> {
    match p {
        Some(id) => Some(principal_text_of(id@)),
        None => None,
    }
}

/// The view of an optional text.
pub open spec fn optional_view(s: Option<String>) -> Option<Seq<char>> {
    match s {
        Some(t) => Some(t@),
        None => None,
    }
}

/// The principals of the information are well formed.
pub open spec fn information_wf(info: AppInformation) -> bool {
    &&& info.id.wf()
    &&& info.caller.wf()
    &&& (info.object_store_client matches Some(p) ==> p.wf())
    &&& (info.object_store_canister matches Some(p) ==> p.wf())
}

fn optional_principal_text(p: &Option<Identity>) -> (r: Option<String>)
    requires
        p matches Some(id) ==> id.wf(),
    ensures
        optional_view(r) == optional_text(*p),
{
    match p {
        Some(id) => Some(id.to_text()),
        None => None,
    }
}

impl AppInformationJSON {
    /// The same information with every principal as text.
    pub fn from_information(info: AppInformation) -> (r: AppInformationJSON)
        requires
            information_wf(info),
        ensures
            r.id@ == principal_text_of(info.id@),
            r.name == info.name,
            r.start_time_ms == info.start_time_ms,
            r.default_agent == info.default_agent,
            optional_view(r.object_store_client) == optional_text(info.object_store_client),
            optional_view(r.object_store_canister) == optional_text(info.object_store_canister),
            r.caller@ == principal_text_of(info.caller@),
    {
        AppInformationJSON {
            id: info.id.to_text(),
            object_store_client: optional_principal_text(&info.object_store_client),
            object_store_canister: optional_principal_text(&info.object_store_canister),
            caller: info.caller.to_text(),
            name: info.name,
            start_time_ms: info.start_time_ms,
            default_agent: info.default_agent,
        }
    }
}

} // verus!
