//! The data shapes the gateway exchanges: inbound request bodies, upstream
//! payloads, and the session identity the login flow produces. All fields
//! are plain values; transport-level encodings live outside this crate.

use vstd::prelude::*;

verus! {

/// A caller's stored session material for one room.
#[derive(Debug, Clone)]
pub struct UserCredentials {
    pub room_id: String,
    pub cookies: String,
    pub csrf_token: String,
}

/// Inbound request to start a broadcast.
#[derive(Debug, Clone)]
pub struct StartStreamRequest {
    pub room_id: String,
    pub cookies: String,
    pub csrf_token: String,
    pub title: String,
    pub area_id: u32,
}

/// Inbound request to stop a broadcast.
#[derive(Debug, Clone)]
pub struct StopStreamRequest {
    pub room_id: String,
    pub cookies: String,
    pub csrf_token: String,
}

/// Inbound request to retitle a broadcast.
#[derive(Debug, Clone)]
pub struct UpdateStreamRequest {
    pub room_id: String,
    pub cookies: String,
    pub csrf_token: String,
    pub title: String,
}

/// The stream descriptor a successful start returns: opaque to this system,
/// handed to an external streaming client.
#[derive(Debug, Clone)]
pub struct StreamInfo {
    pub server_url: String,
    pub stream_key: String,
}

/// The uniform upstream response envelope: `code == 0` means success and
/// `data` is expected to be present; any other code is a semantic failure
/// carrying `message`.
#[allow(non_camel_case_types)]
#[derive(Debug, Clone)]
pub struct gugugagaApiResponse<T> {
    pub code: i32,
    pub message: String,
    pub data: Option<T>,
}

/// Payload of the server-timestamp endpoint.
#[derive(Debug, Clone)]
pub struct TimestampData {
    pub now: i64,
}

/// Payload of the client-version endpoint.
#[derive(Debug, Clone)]
pub struct VersionData {
    pub build: i64,
    pub curr_version: String,
}

/// The RTMP field of a successful start: ingest address and stream code.
#[derive(Debug, Clone)]
pub struct RtmpData {
    pub addr: String,
    pub code: String,
}

/// Payload of the start-live endpoint.
#[derive(Debug, Clone)]
pub struct StartLiveData {
    pub rtmp: RtmpData,
}

/// The structured error shape handed back to inbound callers.
#[derive(Debug, Clone)]
pub struct ErrorResponse {
    pub error: String,
}

/// Inbound request for the user profile.
#[derive(Debug, Clone)]
pub struct UserInfoRequest {
    pub cookies: String,
}

/// The merged user profile. Upstream reports `coins` and `bcoin` as
/// unconstrained decimal numbers; they are carried here as their decimal
/// text, with `0` standing in when upstream omits them.
#[derive(Debug, Clone)]
pub struct UserInfo {
    pub uid: u64,
    pub uname: String,
    pub face: String,
    pub level: u32,
    pub coins: String,
    pub bcoin: String,
    pub current_exp: u64,
    pub next_exp: String,
    pub following: u64,
    pub follower: u64,
    pub dynamic_count: u64,
}

/// Payload of the QR ticket endpoint: the address to encode and the key to
/// poll with.
#[derive(Debug, Clone)]
pub struct QrCodeData {
    pub url: String,
    pub qrcode_key: String,
}

/// What the gateway hands an inbound caller who asked for a QR ticket.
#[derive(Debug, Clone)]
pub struct QrCodeResponse {
    pub qr_url: String,
    pub qrcode_key: String,
}

/// Inbound request to poll a QR ticket.
#[derive(Debug, Clone)]
pub struct QrPollRequest {
    pub qrcode_key: String,
}

/// What one poll hands back: the upstream status code and message, and the
/// session material once the flow has confirmed.
#[derive(Debug, Clone)]
pub struct QrPollResponse {
    pub code: i32,
    pub message: String,
    pub cookies: Option<String>,
    pub csrf_token: Option<String>,
    pub room_id: Option<String>,
}

/// The credentials a confirmed login yields: the raw cookie header kept
/// verbatim, the CSRF token extracted from it, and the room.
#[derive(Debug, Clone)]
pub struct SessionIdentity {
    pub cookies: String,
    pub csrf_token: String,
    pub room_id: String,
}

} // verus!
