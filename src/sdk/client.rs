use vstd::prelude::*;

use crate::sdk::errors::{MicroserviceError, Result};
use crate::sdk::models::{JoinRoomRequest, JoinRoomResponse, MicroserviceConfig, RegisterMicroserviceRequest};

verus! {

/// The scheme and explicit port of an address, as the url crate parses it;
/// `None` where it does not parse. A port equal to the scheme's default reads
/// as no port.
pub uninterp spec fn parsed_endpoint(s: Seq<char>) -> Option<(Seq<char>, Option<u16>)>;

/// Relies on url's Url::parse, Url::scheme and Url::port: the scheme and the
/// explicit port of `endpoint`, or the parse error's text.
#[verifier::external_body]
fn endpoint_parts(endpoint: &str) -> (r: core::result::Result<(String, Option<u16>), String>)
    ensures
        r is Ok == parsed_endpoint(endpoint@) is Some,
        r is Ok ==> parsed_endpoint(endpoint@) == Some((r->Ok_0.0@, r->Ok_0.1)),
{
    match url::Url::parse(endpoint) {
        Ok(u) => Ok((u.scheme().to_string(), u.port())),
        Err(e) => Err(e.to_string()),
    }
}

/// The port a worker listens on, from the parts of its endpoint: the
/// explicit port, else 80 for `http` and 443 for `https`. Another scheme is
/// a configuration error, even with a port; so is an address that does not
/// parse.
pub open spec fn port_of_parts(parts: Option<(Seq<char>, Option<u16>)>) -> Option<u16> {
    match parts {
        None => None,
        Some((scheme, port)) => {
            if scheme == "http"@ || scheme == "https"@ {
                match port {
                    Some(p) => Some(p),
                    None => Some(if scheme == "http"@ { 80u16 } else { 443u16 }),
                }
            } else {
                None
            }
        },
    }
}

pub open spec fn parts_view(parts: core::result::Result<(String, Option<u16>), String>) -> Option<(Seq<char>, Option<u16>)> {
    match parts {
        Ok((scheme, port)) => Some((scheme@, port)),
        Err(_) => None,
    }
}

/// The address parsed, with a scheme other than `http` and `https`.
pub open spec fn unknown_scheme(parts: Option<(Seq<char>, Option<u16>)>) -> bool {
    match parts {
        Some((scheme, _)) => scheme != "http"@ && scheme != "https"@,
        None => false,
    }
}

/// The port of an endpoint from its parsed parts (see [`port_of_parts`]).
pub fn port_from_parts(parts: core::result::Result<(String, Option<u16>), String>) -> (r: Result<u16>)
    ensures
        r is Ok <==> port_of_parts(parts_view(parts)) is Some,
        r is Ok ==> r->Ok_0 == port_of_parts(parts_view(parts))->0,
        r is Err ==> r->Err_0 is ConfigurationError,
        unknown_scheme(parts_view(parts)) ==> (r matches Err(MicroserviceError::ConfigurationError(m)) && m@ == "Unknown URL scheme"@),
        parts is Err ==> (r matches Err(MicroserviceError::ConfigurationError(m)) && m@ == "Invalid endpoint URL: "@ + parts->Err_0@),
{
    proof {
        reveal_strlit("http");
        reveal_strlit("https");
        reveal_strlit("Unknown URL scheme");
    }
    match parts {
        Err(e) => {
            let mut m = String::from_str("Invalid endpoint URL: ");
            m.append(e.as_str());
            Err(MicroserviceError::ConfigurationError(m))
        },
        Ok((scheme, port)) => {
            let default = if scheme.eq(&String::from_str("http")) {
                80u16
            } else if scheme.eq(&String::from_str("https")) {
                443u16
            } else {
                return Err(MicroserviceError::ConfigurationError(String::from_str("Unknown URL scheme")));
            };
            match port {
                Some(p) => Ok(p),
                None => Ok(default),
            }
        },
    }
}

/// The port a worker listens on, read from its endpoint address.
pub fn extract_port_from_endpoint(endpoint: &str) -> (r: Result<u16>)
    ensures
        r is Ok <==> port_of_parts(parsed_endpoint(endpoint@)) is Some,
        r is Ok ==> r->Ok_0 == port_of_parts(parsed_endpoint(endpoint@))->0,
        r is Err ==> r->Err_0 is ConfigurationError,
        unknown_scheme(parsed_endpoint(endpoint@)) ==> (r matches Err(MicroserviceError::ConfigurationError(m)) && m@ == "Unknown URL scheme"@),
{
    let parts = endpoint_parts(endpoint);
    assert(parts_view(parts) == parsed_endpoint(endpoint@));
    port_from_parts(parts)
}

/// Where a worker registers: the engine's base address and
/// `/api/v1/microservices/register`.
pub fn registration_url(config: &MicroserviceConfig) -> (r: String)
    ensures
        r@ == config.session_manager_url@ + "/api/v1/microservices/register"@,
{
    let mut r = config.session_manager_url.clone();
    r.append("/api/v1/microservices/register");
    r
}

/// A worker's registration request: its id and endpoint, and its metadata
/// unless there is none.
pub fn registration_request(config: &MicroserviceConfig) -> (r: RegisterMicroserviceRequest)
    ensures
        r.service_id@ == config.service_id@,
        r.endpoint@ == config.service_endpoint@,
        r.metadata is None <==> config.metadata@.is_empty(),
        r.metadata is Some ==> r.metadata->0@ == config.metadata@,
{
    RegisterMicroserviceRequest {
        service_id: config.service_id.clone(),
        endpoint: config.service_endpoint.clone(),
        metadata: if config.metadata.is_empty() { None } else { Some(config.metadata.clone()) },
    }
}

/// The error for a refused registration: the engine's own message where
/// its reply could be read as an error reply, else the reply's text.
pub fn registration_error(status: u16, body: String, parsed_message: Option<String>) -> (r: MicroserviceError)
    ensures
        r matches MicroserviceError::SessionManagerError { status: s, message: m } && s == status
            && m@ == match parsed_message { Some(p) => p@, None => body@ },
{
    match parsed_message {
        Some(message) => MicroserviceError::SessionManagerError { status, message },
        None => MicroserviceError::SessionManagerError { status, message: body },
    }
}

/// A worker's reply once it has joined the room.
pub fn joined_response(request: &JoinRoomRequest) -> (r: JoinRoomResponse)
    ensures
        r.success,
        r.message@ == "Successfully joined room"@,
        r.session_id@ == request.session_id@,
        r.service_id@ == request.service_identity@,
{
    JoinRoomResponse {
        success: true,
        message: String::from_str("Successfully joined room"),
        session_id: request.session_id.clone(),
        service_id: request.service_identity.clone(),
    }
}

} // verus!
