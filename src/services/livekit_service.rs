use std::time::Duration;

use livekit_api::access_token::{AccessToken, VideoGrants};
use vstd::prelude::*;

use crate::text::{has_prefix, replace_all, replace_every, starts_with_text};

verus! {

/// Lifetime of a worker's or the client's credential: six hours.
pub const WORKER_TOKEN_TTL_SECS: u64 = 21600;

/// Lifetime of the engine's own credential: a day.
pub const MANAGER_TOKEN_TTL_SECS: u64 = 86400;

/// The capabilities a credential grants in one room.
#[derive(Debug)]
pub struct TokenGrant {
    pub room: String,
    pub room_join: bool,
    pub room_admin: bool,
    pub hidden: bool,
    pub can_publish: bool,
    pub can_subscribe: bool,
    pub can_publish_data: bool,
    pub ttl_secs: u64,
}

/// Relies on livekit_api's AccessToken (with_api_key, with_identity,
/// with_grants, with_ttl, to_jwt): a signed credential for `identity`, or
/// the error's text. `to_jwt` refuses an empty key or secret, and a grant to
/// join a room without an identity or a room. A lifetime past `u32::MAX`
/// seconds could overflow the expiry time.
#[verifier::external_body]
fn mint_token(api_key: &str, api_secret: &str, identity: &str, grant: &TokenGrant) -> (r: Result<String, String>)
    requires
        grant.ttl_secs <= u32::MAX,
    ensures
        api_key@.len() == 0 || api_secret@.len() == 0 ==> r is Err,
        grant.room_join && (identity@.len() == 0 || grant.room@.len() == 0) ==> r is Err,
{
    let grants = VideoGrants {
        room_join: grant.room_join,
        room: grant.room.clone(),
        room_admin: grant.room_admin,
        hidden: grant.hidden,
        can_publish: Some(grant.can_publish),
        can_subscribe: Some(grant.can_subscribe),
        can_publish_data: Some(grant.can_publish_data),
        ..Default::default()
    };
    AccessToken::with_api_key(api_key, api_secret).with_identity(identity).with_grants(grants)
        .with_ttl(Duration::from_secs(grant.ttl_secs)).to_jwt().map_err(|e| e.to_string())
}

/// Signs a credential for `identity` with the provider's key and secret.
pub fn sign_token(api_key: &str, api_secret: &str, identity: &str, grant: &TokenGrant) -> (r: Result<String, String>)
    requires
        grant.ttl_secs <= u32::MAX,
    ensures
        api_key@.len() == 0 || api_secret@.len() == 0 ==> r is Err,
        grant.room_join && (identity@.len() == 0 || grant.room@.len() == 0) ==> r is Err,
{
    mint_token(api_key, api_secret, identity, grant)
}

/// The HTTP form of the provider's address, for its API: an address that
/// starts with `ws://` has every `ws://` in it turned into `http://`, one
/// that starts with `wss://` every `wss://` into `https://`; any other is
/// kept.
pub open spec fn api_url_of(url: Seq<char>) -> Seq<char> {
    if has_prefix(url, "ws://"@) {
        replace_all(url, "ws://"@, "http://"@)
    } else if has_prefix(url, "wss://"@) {
        replace_all(url, "wss://"@, "https://"@)
    } else {
        url
    }
}

/// The WebSocket form of the provider's address, for joining a room: an
/// address that starts with `http://` has every `http://` in it turned into
/// `ws://`, one that starts with `https://` every `https://` into `wss://`;
/// any other is kept.
pub open spec fn ws_url_of(url: Seq<char>) -> Seq<char> {
    if has_prefix(url, "http://"@) {
        replace_all(url, "http://"@, "ws://"@)
    } else if has_prefix(url, "https://"@) {
        replace_all(url, "https://"@, "wss://"@)
    } else {
        url
    }
}

/// The provider's address for API calls (see [`api_url_of`]).
pub fn to_api_url(server_url: &str) -> (r: String)
    ensures
        r@ == api_url_of(server_url@),
{
    proof {
        reveal_strlit("ws://");
        reveal_strlit("wss://");
    }
    if starts_with_text(server_url, "ws://") {
        replace_every(server_url, "ws://", "http://")
    } else if starts_with_text(server_url, "wss://") {
        replace_every(server_url, "wss://", "https://")
    } else {
        server_url.to_owned()
    }
}

/// The provider's address for joining a room (see [`ws_url_of`]).
pub fn to_ws_url(server_url: &str) -> (r: String)
    ensures
        r@ == ws_url_of(server_url@),
{
    proof {
        reveal_strlit("http://");
        reveal_strlit("https://");
    }
    if starts_with_text(server_url, "http://") {
        replace_every(server_url, "http://", "ws://")
    } else if starts_with_text(server_url, "https://") {
        replace_every(server_url, "https://", "wss://")
    } else {
        server_url.to_owned()
    }
}

} // verus!
