//! Pairing devices: the answers to refused pairing requests, the limits on
//! pairing attempts, token refresh, device presence and the QR pairing
//! codes.
use vstd::prelude::*;
use vstd::string::StringExecFns;

use crate::auth::{check_attempt, rate_step, AttemptWindow};
use crate::deps::{parse_rfc3339, parse_uuid, rfc3339_parsed, uuid_parsed, uuid_string, uuid_text};
use crate::text::{append_decimal, chars_of, decimal, string_of, trim, trim_chars};

verus! {

/// The error codes of the link protocol.
#[derive(Debug, Clone, Copy, PartialEq, Eq, Structural)]
pub enum LinkErrorCode {
    RateLimited,
    PairingNotFound,
    PairingExpired,
    PairingAlreadyConsumed,
    PairingPinMismatch,
    PairingAttemptsExceeded,
    PairingKeyMismatch,
    InvalidRequest,
    InternalError,
}

impl LinkErrorCode {
    /// The code's wire name.
    pub fn as_str(&self) -> (s: &'static str)
        ensures
            s@ == link_code_name(*self),
    {
        match self {
            LinkErrorCode::RateLimited => "RATE_LIMITED",
            LinkErrorCode::PairingNotFound => "PAIRING_NOT_FOUND",
            LinkErrorCode::PairingExpired => "PAIRING_EXPIRED",
            LinkErrorCode::PairingAlreadyConsumed => "PAIRING_ALREADY_CONSUMED",
            LinkErrorCode::PairingPinMismatch => "PAIRING_PIN_MISMATCH",
            LinkErrorCode::PairingAttemptsExceeded => "PAIRING_ATTEMPTS_EXCEEDED",
            LinkErrorCode::PairingKeyMismatch => "PAIRING_KEY_MISMATCH",
            LinkErrorCode::InvalidRequest => "INVALID_REQUEST",
            LinkErrorCode::InternalError => "INTERNAL_ERROR",
        }
    }
}

/// The wire name of a link error code.
pub open spec fn link_code_name(c: LinkErrorCode) -> Seq<char> {
    match c {
        LinkErrorCode::RateLimited => "RATE_LIMITED"@,
        LinkErrorCode::PairingNotFound => "PAIRING_NOT_FOUND"@,
        LinkErrorCode::PairingExpired => "PAIRING_EXPIRED"@,
        LinkErrorCode::PairingAlreadyConsumed => "PAIRING_ALREADY_CONSUMED"@,
        LinkErrorCode::PairingPinMismatch => "PAIRING_PIN_MISMATCH"@,
        LinkErrorCode::PairingAttemptsExceeded => "PAIRING_ATTEMPTS_EXCEEDED"@,
        LinkErrorCode::PairingKeyMismatch => "PAIRING_KEY_MISMATCH"@,
        LinkErrorCode::InvalidRequest => "INVALID_REQUEST"@,
        LinkErrorCode::InternalError => "INTERNAL_ERROR"@,
    }
}

/// Why the identity layer refused a pairing step.
#[derive(Debug)]
pub enum PairingFailure {
    RateLimited,
    PairingNotFound,
    PairingExpired,
    PairingAlreadyConsumed,
    PairingPinMismatch,
    PairingAttemptsExceeded,
    PairingKeyMismatch,
    /// Any other refusal, with its message.
    Other(String),
}

/// An error answer: HTTP status, code and message.
#[derive(Debug)]
pub struct ErrorAnswer {
    pub status: u16,
    pub code: LinkErrorCode,
    pub message: String,
}

/// The answer to a refused pairing step.
pub open spec fn pairing_answer(f: PairingFailure) -> (u16, LinkErrorCode, Seq<char>) {
    match f {
        PairingFailure::RateLimited => (429, LinkErrorCode::RateLimited, "Too many pairing requests. Please wait."@),
        PairingFailure::PairingNotFound => (404, LinkErrorCode::PairingNotFound, "pairing session not found or expired"@),
        PairingFailure::PairingExpired => (410, LinkErrorCode::PairingExpired, "pairing session expired"@),
        PairingFailure::PairingAlreadyConsumed => (409, LinkErrorCode::PairingAlreadyConsumed, "pairing already confirmed"@),
        PairingFailure::PairingPinMismatch => (401, LinkErrorCode::PairingPinMismatch, "invalid pairing PIN"@),
        PairingFailure::PairingAttemptsExceeded => (429, LinkErrorCode::PairingAttemptsExceeded, "maximum pairing PIN attempts exceeded"@),
        PairingFailure::PairingKeyMismatch => (403, LinkErrorCode::PairingKeyMismatch, "cryptographic identity key mismatch"@),
        PairingFailure::Other(m) => (400, LinkErrorCode::InvalidRequest, m@),
    }
}

fn answer(status: u16, code: LinkErrorCode, message: &str) -> (a: ErrorAnswer)
    ensures
        a.status == status && a.code == code && a.message@ == message@,
{
    ErrorAnswer { status, code, message: String::from_str(message) }
}

/// Maps a refused pairing step to its answer.
pub fn pairing_error(f: &PairingFailure) -> (a: ErrorAnswer)
    ensures
        (a.status, a.code, a.message@) == pairing_answer(*f),
{
    match f {
        PairingFailure::RateLimited => answer(429, LinkErrorCode::RateLimited, "Too many pairing requests. Please wait."),
        PairingFailure::PairingNotFound => answer(404, LinkErrorCode::PairingNotFound, "pairing session not found or expired"),
        PairingFailure::PairingExpired => answer(410, LinkErrorCode::PairingExpired, "pairing session expired"),
        PairingFailure::PairingAlreadyConsumed => answer(409, LinkErrorCode::PairingAlreadyConsumed, "pairing already confirmed"),
        PairingFailure::PairingPinMismatch => answer(401, LinkErrorCode::PairingPinMismatch, "invalid pairing PIN"),
        PairingFailure::PairingAttemptsExceeded => answer(429, LinkErrorCode::PairingAttemptsExceeded, "maximum pairing PIN attempts exceeded"),
        PairingFailure::PairingKeyMismatch => answer(403, LinkErrorCode::PairingKeyMismatch, "cryptographic identity key mismatch"),
        PairingFailure::Other(m) => answer(400, LinkErrorCode::InvalidRequest, m.as_str()),
    }
}

/// Pairing starts a client may make per minute.
pub const PAIR_START_ATTEMPTS_PER_MINUTE: u32 = 10;

/// Pairing confirmations a client may make per minute.
pub const PAIR_CONFIRM_ATTEMPTS_PER_MINUTE: u32 = 5;

/// Counts a pairing attempt of a client against the per-minute `limit`;
/// a refused attempt is answered `429 RATE_LIMITED`.
pub fn check_pairing_attempt(window: Option<AttemptWindow>, now_ms: u64, limit: u32) -> (r: (
    Result<(), ErrorAnswer>,
    AttemptWindow,
))
    ensures
        r.1 == rate_step(window, now_ms, limit).1,
        rate_step(window, now_ms, limit).0 ==> r.0 is Ok,
        !rate_step(window, now_ms, limit).0 ==> (r.0 matches Err(a) && a.status == 429 && a.code
            == LinkErrorCode::RateLimited && a.message@
            == "Too many pairing attempts. Please wait 60 seconds."@),
{
    let (allowed, w) = check_attempt(window, now_ms, limit);
    if allowed {
        (Ok(()), w)
    } else {
        (Err(answer(429, LinkErrorCode::RateLimited, "Too many pairing attempts. Please wait 60 seconds.")), w)
    }
}

/// A refused token refresh.
#[derive(Debug, Clone, Copy, PartialEq, Eq, Structural)]
pub enum RefreshError {
    /// `401 INVALID_TOKEN`: the refresh token is unknown or expired.
    InvalidToken,
    /// `403 DEVICE_MISMATCH`: the request names another device.
    DeviceMismatch,
}

impl RefreshError {
    /// The error's code and message.
    pub fn text(&self) -> (r: (&'static str, &'static str))
        ensures
            r.0@ == (match self {
                RefreshError::InvalidToken => "INVALID_TOKEN"@,
                RefreshError::DeviceMismatch => "DEVICE_MISMATCH"@,
            }),
            r.1@ == (match self {
                RefreshError::InvalidToken => "invalid or expired refresh token"@,
                RefreshError::DeviceMismatch => "device id does not match token"@,
            }),
    {
        match self {
            RefreshError::InvalidToken => ("INVALID_TOKEN", "invalid or expired refresh token"),
            RefreshError::DeviceMismatch => ("DEVICE_MISMATCH", "device id does not match token"),
        }
    }
}

/// The device that a refresh request names: its device id, else its client
/// device id where that is a UUID.
pub open spec fn requested_device(device_id: Option<u128>, client_device_id: Option<Seq<char>>) -> Option<u128> {
    match device_id {
        Some(d) => Some(d),
        None => match client_device_id {
            Some(c) => uuid_parsed(c),
            None => None,
        },
    }
}

/// Checks a token refresh: the refresh token must belong to a device
/// (`token_device`), and a device named in the request must be that one.
pub fn check_refresh(token_device: Option<u128>, device_id: Option<u128>, client_device_id: Option<&str>) -> (r:
    Result<u128, RefreshError>)
    ensures
        token_device is None ==> r == Err::<u128, RefreshError>(RefreshError::InvalidToken),
        token_device matches Some(t) ==> match requested_device(
            device_id,
            match client_device_id {
                Some(c) => Some(c@),
                None => None,
            },
        ) {
            Some(q) => if q != t {
                r == Err::<u128, RefreshError>(RefreshError::DeviceMismatch)
            } else {
                r == Ok::<u128, RefreshError>(t)
            },
            None => r == Ok::<u128, RefreshError>(t),
        },
{
    let t = match token_device {
        Some(t) => t,
        None => {
            return Err(RefreshError::InvalidToken);
        },
    };
    let req: Option<u128> = match device_id {
        Some(d) => Some(d),
        None => match client_device_id {
            Some(c) => match parse_uuid(c) {
                Ok(v) => Some(v),
                Err(_) => None,
            },
            None => None,
        },
    };
    if let Some(q) = req {
        if q != t {
            return Err(RefreshError::DeviceMismatch);
        }
    }
    Ok(t)
}

/// Nanoseconds since the Unix epoch of a parsed instant.
pub open spec fn instant_nanos(t: (i64, u32)) -> int {
    t.0 * 1_000_000_000 + t.1
}

/// Whether a device seen at `last_seen` counts as online at `now_nanos`:
/// it was seen less than 180 seconds ago.
pub open spec fn spec_device_online(last_seen: Option<Seq<char>>, now_nanos: i128) -> bool {
    match last_seen {
        Some(s) => match rfc3339_parsed(s) {
            Some(t) => now_nanos - instant_nanos(t) < 180_000_000_000,
            None => false,
        },
        None => false,
    }
}

/// Whether a device counts as online.
pub fn device_online(last_seen: Option<&str>, now_nanos: i128) -> (r: bool)
    requires
        -10_000_000_000_000_000_000_000_000 < now_nanos < 10_000_000_000_000_000_000_000_000,
    ensures
        r == spec_device_online(
            match last_seen {
                Some(s) => Some(s@),
                None => None,
            },
            now_nanos,
        ),
{
    let s = match last_seen {
        Some(s) => s,
        None => {
            return false;
        },
    };
    match parse_rfc3339(s) {
        Some((secs, nanos)) => {
            let t: i128 = (secs as i128) * 1_000_000_000 + (nanos as i128);
            now_nanos - t < 180_000_000_000
        },
        None => false,
    }
}

/// A request for a QR pairing code.
#[derive(Debug)]
pub struct QrGenerateBody {
    pub server_url: Option<String>,
}

/// `s` without trailing `/` characters.
pub open spec fn trim_end_slashes(s: Seq<char>) -> Seq<char>
    decreases s.len(),
{
    if s.len() > 0 && s.last() == '/' {
        trim_end_slashes(s.drop_last())
    } else {
        s
    }
}

/// The server address that a QR code carries: the one requested (trimmed,
/// without trailing slashes) when it is not blank; else the forwarded or
/// direct host with the forwarded scheme (or `http`); else the local port.
/// A header is `None` when absent and `Some(None)` when it is no text.
pub open spec fn spec_qr_server_url(
    requested: Option<Seq<char>>,
    forwarded_host: Option<Option<Seq<char>>>,
    host: Option<Option<Seq<char>>>,
    forwarded_proto: Option<Option<Seq<char>>>,
    port: u16,
) -> Seq<char> {
    let chosen = match forwarded_host {
        Some(h) => h,
        None => match host {
            Some(h) => h,
            None => None,
        },
    };
    let scheme = match forwarded_proto {
        Some(Some(p)) => p,
        _ => "http"@,
    };
    if requested matches Some(u) && trim(u).len() > 0 {
        trim_end_slashes(trim(requested->0))
    } else if chosen matches Some(h) && h.len() > 0 {
        scheme + "://"@ + chosen->0
    } else {
        "http://localhost:"@ + decimal(port as nat)
    }
}

fn trim_slashes(v: &Vec<char>) -> (r: Vec<char>)
    ensures
        r@ == trim_end_slashes(v@),
{
    let mut n = v.len();
    proof {
        assert(v@.take(n as int) =~= v@);
    }
    while n > 0 && v[n - 1] == '/'
        invariant
            n <= v@.len(),
            trim_end_slashes(v@) == trim_end_slashes(v@.take(n as int)),
        decreases n,
    {
        proof {
            assert(v@.take(n as int).drop_last() =~= v@.take(n as int - 1));
        }
        n = n - 1;
    }
    let mut r: Vec<char> = Vec::new();
    let mut i: usize = 0;
    while i < n
        invariant
            n <= v@.len(),
            i <= n,
            r@ == v@.take(i as int),
        decreases n - i,
    {
        r.push(v[i]);
        proof {
            assert(v@.take(i as int + 1) =~= v@.take(i as int).push(v@[i as int]));
        }
        i = i + 1;
    }
    r
}

/// Header text as `spec_qr_server_url` reads it.
pub open spec fn header_view(h: Option<Option<&str>>) -> Option<Option<Seq<char>>> {
    match h {
        Some(Some(t)) => Some(Some(t@)),
        Some(None) => Some(None),
        None => None,
    }
}

/// The server address that a QR code carries.
pub fn qr_server_url(
    requested: Option<&str>,
    forwarded_host: Option<Option<&str>>,
    host: Option<Option<&str>>,
    forwarded_proto: Option<Option<&str>>,
    port: u16,
) -> (r: String)
    ensures
        r@ == spec_qr_server_url(
            match requested {
                Some(u) => Some(u@),
                None => None,
            },
            header_view(forwarded_host),
            header_view(host),
            header_view(forwarded_proto),
            port,
        ),
{
    if let Some(u) = requested {
        let t = trim_chars(chars_of(u).as_slice());
        if t.len() > 0 {
            let s = trim_slashes(&t);
            return string_of(s.as_slice());
        }
    }
    let chosen: Option<&str> = match forwarded_host {
        Some(h) => h,
        None => match host {
            Some(h) => h,
            None => None,
        },
    };
    if let Some(h) = chosen {
        if chars_of(h).len() > 0 {
            let mut s = match forwarded_proto {
                Some(Some(p)) => String::from_str(p),
                _ => String::from_str("http"),
            };
            s.append("://");
            s.append(h);
            return s;
        }
    }
    let mut s = String::from_str("http://localhost:");
    append_decimal(&mut s, port as u64);
    s
}

/// Where the image of a QR code is served.
pub fn qr_svg_url(qr_code: u128) -> (r: String)
    ensures
        r@ == "/api/v1/pair/qr/"@ + uuid_text(qr_code) + "/svg"@,
{
    let mut s = String::from_str("/api/v1/pair/qr/");
    let c = uuid_string(qr_code);
    s.append(c.as_str());
    s.append("/svg");
    s
}

/// The state of a stored QR code.
#[derive(Debug, Clone, Copy, PartialEq, Eq, Structural)]
pub enum QrState {
    Claimed,
    Expired,
    Waiting,
}

/// A QR code whose state could not be read: its expiry is no RFC 3339
/// time (`500 PARSE_ERROR`, "invalid expiry").
#[derive(Debug, Clone, Copy, PartialEq, Eq, Structural)]
pub struct QrExpiryUnreadable;

/// The state of a stored QR code at `now_nanos`: claimed codes stay
/// claimed; others expire once their expiry lies before now.
pub open spec fn spec_qr_state(claimed: bool, expires_at: Seq<char>, now_nanos: i128) -> Result<
    QrState,
    QrExpiryUnreadable,
> {
    if claimed {
        Ok(QrState::Claimed)
    } else {
        match rfc3339_parsed(expires_at) {
            None => Err(QrExpiryUnreadable),
            Some(t) => if instant_nanos(t) < now_nanos {
                Ok(QrState::Expired)
            } else {
                Ok(QrState::Waiting)
            },
        }
    }
}

/// The state of a stored QR code.
pub fn qr_state(claimed: bool, expires_at: &str, now_nanos: i128) -> (r: Result<
    QrState,
    QrExpiryUnreadable,
>)
    requires
        -10_000_000_000_000_000_000_000_000 < now_nanos < 10_000_000_000_000_000_000_000_000,
    ensures
        r == spec_qr_state(claimed, expires_at@, now_nanos),
{
    if claimed {
        return Ok(QrState::Claimed);
    }
    match parse_rfc3339(expires_at) {
        None => Err(QrExpiryUnreadable),
        Some((secs, nanos)) => {
            let t: i128 = (secs as i128) * 1_000_000_000 + (nanos as i128);
            if t < now_nanos {
                Ok(QrState::Expired)
            } else {
                Ok(QrState::Waiting)
            }
        },
    }
}

/// Why a QR code cannot be shown or claimed.
#[derive(Debug, Clone, Copy, PartialEq, Eq, Structural)]
pub enum QrUseError {
    /// `410 ALREADY_USED`.
    AlreadyUsed,
    /// `410 EXPIRED`.
    Expired,
    /// `500 PARSE_ERROR`.
    InvalidExpiry,
}

/// Whether a QR code in state `s` can still be shown or claimed.
pub fn check_qr_usable(s: Result<QrState, QrExpiryUnreadable>) -> (r: Result<(), QrUseError>)
    ensures
        r == (match s {
            Ok(QrState::Claimed) => Err::<(), QrUseError>(QrUseError::AlreadyUsed),
            Ok(QrState::Expired) => Err(QrUseError::Expired),
            Ok(QrState::Waiting) => Ok(()),
            Err(_) => Err(QrUseError::InvalidExpiry),
        }),
{
    match s {
        Ok(QrState::Claimed) => Err(QrUseError::AlreadyUsed),
        Ok(QrState::Expired) => Err(QrUseError::Expired),
        Ok(QrState::Waiting) => Ok(()),
        Err(_) => Err(QrUseError::InvalidExpiry),
    }
}

/// A device's request to claim a QR code.
#[derive(Debug)]
pub struct QrClaimBody {
    pub device_name: Option<String>,
    pub device_type: Option<String>,
}

/// The device a QR claim registers: its alias and type (with defaults) and
/// the permissions that QR-paired devices get.
pub fn qr_claimed_device(body: &QrClaimBody) -> (r: (String, String, &'static str))
    ensures
        r.0@ == (match body.device_name {
            Some(n) => n@,
            None => "QR-Paired Device"@,
        }),
        r.1@ == (match body.device_type {
            Some(t) => t@,
            None => "mobile"@,
        }),
        r.2@ == "{\"playback\":true,\"queue\":true,\"library_read\":true,\"settings\":false}"@,
{
    let name = match &body.device_name {
        Some(n) => n.clone(),
        None => String::from_str("QR-Paired Device"),
    };
    let kind = match &body.device_type {
        Some(t) => t.clone(),
        None => String::from_str("mobile"),
    };
    (name, kind, "{\"playback\":true,\"queue\":true,\"library_read\":true,\"settings\":false}")
}

/// Once a QR code is claimed it can be neither shown nor claimed again, and
/// an expired code never becomes usable.
pub proof fn law_claimed_qr_unusable(expires_at: Seq<char>, now_nanos: i128)
    ensures
        spec_qr_state(true, expires_at, now_nanos) == Ok::<QrState, QrExpiryUnreadable>(
            QrState::Claimed,
        ),
        spec_qr_state(false, expires_at, now_nanos) == Ok::<QrState, QrExpiryUnreadable>(
            QrState::Expired,
        ) ==> forall|later: i128|
            later >= now_nanos ==> #[trigger] spec_qr_state(false, expires_at, later) == Ok::<
                QrState,
                QrExpiryUnreadable,
            >(QrState::Expired),
{
}

} // verus!
