//! The QR-login handshake as a state machine. A ticket is issued, then each
//! poll is a single upstream status check: an intermediate confirmation
//! moves the flow to `Scanned`, a final success to `Confirmed` with the
//! session identity, an elapsed validity window to `Expired`, and an
//! explicit rejection to `Cancelled`. Terminal states absorb every further
//! event, so repeated polling can never flip a finished login.

use vstd::prelude::*;
use vstd::string::*;

use crate::cookies::{parse_cookies, spec_lookup_last, spec_parse_cookies};
use crate::models::{QrCodeData, QrCodeResponse, QrPollResponse, SessionIdentity};

verus! {

/// The states of the login handshake.
#[derive(Debug)]
pub enum QrLoginState {
    /// No ticket yet.
    Idle,
    /// A ticket is out, not yet scanned.
    TicketIssued,
    /// Scanned on the device, not yet confirmed.
    Scanned,
    /// Confirmed: the session identity is available. Terminal.
    Confirmed { identity: SessionIdentity },
    /// The ticket's validity window elapsed. Terminal.
    Expired,
    /// The user explicitly rejected the login. Terminal.
    Cancelled,
}

/// One poll's upstream answer, classified.
#[derive(Debug)]
pub enum QrPollEvent {
    /// Not scanned yet.
    Waiting,
    /// Scanned, awaiting confirmation on the device.
    Scanned,
    /// Confirmed: upstream handed over the session material.
    Confirmed { identity: SessionIdentity },
    /// The validity window elapsed.
    Expired,
    /// The user rejected the login.
    Rejected,
}

/// How upstream reports a poll, by its inner status code: `0` is the final
/// success, `86038` the elapsed window, `86090` scanned-not-confirmed, and
/// `86101` not-scanned; any other code is read as an explicit rejection.
pub open spec fn spec_classify_poll_code(code: int) -> QrPollEvent
    recommends
        code != 0,
{
    if code == 86038 {
        QrPollEvent::Expired
    } else if code == 86090 {
        QrPollEvent::Scanned
    } else if code == 86101 {
        QrPollEvent::Waiting
    } else {
        QrPollEvent::Rejected
    }
}

/// Classifies a non-success poll code. The success code `0` is not handled
/// here: its event carries the session identity, which the caller extracts
/// from the confirmed cookies first.
pub fn classify_poll_code(code: i64) -> (r: QrPollEvent)
    requires
        code != 0,
    ensures
        r == spec_classify_poll_code(code as int),
{
    if code == 86038 {
        QrPollEvent::Expired
    } else if code == 86090 {
        QrPollEvent::Scanned
    } else if code == 86101 {
        QrPollEvent::Waiting
    } else {
        QrPollEvent::Rejected
    }
}

impl QrLoginState {
    /// Whether the state is terminal: confirmed, expired, or cancelled.
    pub open spec fn spec_terminal(self) -> bool {
        self is Confirmed || self is Expired || self is Cancelled
    }

    /// Decides whether this state is terminal.
    pub fn is_terminal(&self) -> (r: bool)
        ensures
            r == self.spec_terminal(),
    {
        match self {
            QrLoginState::Confirmed { .. } => true,
            QrLoginState::Expired => true,
            QrLoginState::Cancelled => true,
            _ => false,
        }
    }
}

/// Issuing a fresh ticket moves an idle flow to `TicketIssued`.
pub fn on_ticket_issued(state: QrLoginState) -> (next: QrLoginState)
    requires
        state is Idle,
    ensures
        next == QrLoginState::TicketIssued,
{
    QrLoginState::TicketIssued
}

/// How one poll moves the handshake: a terminal state absorbs every event;
/// before the ticket is issued nothing moves; otherwise the classified
/// event decides.
pub open spec fn spec_qr_step(state: QrLoginState, event: QrPollEvent) -> QrLoginState {
    if state.spec_terminal() || state is Idle {
        state
    } else {
        match event {
            QrPollEvent::Waiting => state,
            QrPollEvent::Scanned => QrLoginState::Scanned,
            QrPollEvent::Confirmed { identity } => QrLoginState::Confirmed { identity },
            QrPollEvent::Expired => QrLoginState::Expired,
            QrPollEvent::Rejected => QrLoginState::Cancelled,
        }
    }
}

/// Applies one poll's classified event to the handshake.
pub fn qr_step(state: QrLoginState, event: QrPollEvent) -> (next: QrLoginState)
    ensures
        next == spec_qr_step(state, event),
{
    if state.is_terminal() {
        state
    } else {
        match state {
            QrLoginState::Idle => QrLoginState::Idle,
            _ => match event {
                QrPollEvent::Waiting => state,
                QrPollEvent::Scanned => QrLoginState::Scanned,
                QrPollEvent::Confirmed { identity } => QrLoginState::Confirmed { identity },
                QrPollEvent::Expired => QrLoginState::Expired,
                QrPollEvent::Rejected => QrLoginState::Cancelled,
            },
        }
    }
}

/// Law: terminal outcomes are absorbing. Once a poll has confirmed,
/// expired, or been cancelled, every further poll leaves the state — and
/// with it the extracted credentials — exactly as it is.
pub proof fn lemma_qr_terminal_idempotent(state: QrLoginState, event: QrPollEvent)
    requires
        state.spec_terminal(),
    ensures
        spec_qr_step(state, event) == state,
{
}

/// The CSRF token a confirmed cookie header carries: the value of its
/// `bili_jct` cookie.
pub open spec fn spec_extract_csrf(cookies: Seq<char>) -> Option<Seq<char>> {
    spec_lookup_last(spec_parse_cookies(cookies), "bili_jct"@)
}

/// Extracts the CSRF token from a raw cookie header.
pub fn extract_csrf(cookies: &str) -> (r: Option<String>)
    ensures
        match r {
            Some(t) => spec_extract_csrf(cookies@) == Some(t@),
            None => spec_extract_csrf(cookies@) is None,
        },
{
    let jar = parse_cookies(cookies);
    match jar.get("bili_jct") {
        Some(v) => Some(v.clone()),
        None => None,
    }
}

/// Builds the session identity of a confirmed login: the cookie header is
/// kept verbatim, the CSRF token is extracted from it, and the room is the
/// caller's. Nothing is produced when the header carries no CSRF cookie.
pub fn session_identity(cookies: String, room_id: String) -> (r: Option<SessionIdentity>)
    ensures
        match r {
            Some(id) => {
                &&& spec_extract_csrf(cookies@) == Some(id.csrf_token@)
                &&& id.cookies == cookies
                &&& id.room_id == room_id
            },
            None => spec_extract_csrf(cookies@) is None,
        },
{
    match extract_csrf(cookies.as_str()) {
        Some(t) => Some(SessionIdentity { cookies, csrf_token: t, room_id }),
        None => None,
    }
}

/// Builds what the inbound caller gets for a fresh ticket: the address to
/// encode and the key to poll with, carried over unchanged.
pub fn qr_code_response(data: QrCodeData) -> (r: QrCodeResponse)
    ensures
        r.qr_url == data.url,
        r.qrcode_key == data.qrcode_key,
{
    QrCodeResponse { qr_url: data.url, qrcode_key: data.qrcode_key }
}

/// Builds what one poll hands the inbound caller: upstream's code and
/// message, with the session material attached exactly when the handshake
/// has confirmed.
pub fn poll_response(code: i32, message: String, state: &QrLoginState) -> (r: QrPollResponse)
    ensures
        r.code == code,
        r.message == message,
        state matches QrLoginState::Confirmed { identity } ==> r.cookies == Some(identity.cookies)
            && r.csrf_token == Some(identity.csrf_token) && r.room_id == Some(identity.room_id),
        !(*state is Confirmed) ==> r.cookies is None && r.csrf_token is None && r.room_id is None,
{
    match state {
        QrLoginState::Confirmed { identity } => QrPollResponse {
            code,
            message,
            cookies: Some(identity.cookies.clone()),
            csrf_token: Some(identity.csrf_token.clone()),
            room_id: Some(identity.room_id.clone()),
        },
        _ => QrPollResponse { code, message, cookies: None, csrf_token: None, room_id: None },
    }
}

} // verus!
