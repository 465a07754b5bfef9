//! Authentication: where a request's token comes from, which routes need an
//! administrator, the session cookie, the login rate limit, the session
//! cache and the password rules.
use vstd::prelude::*;
use vstd::string::StringExecFns;

use crate::client_ip::{IpValue, ProxyPolicy};
use crate::deps::{
    base64_url_encode, base64_url_no_pad, lemma_base64_url_shape, random_token_bytes, url_safe_base64_char, parse_rfc3339, rfc3339_parsed, argon2_accepts, hash_password_argon2, password_hash_error_text, sha256, sha256_digest,
    verify_password_argon2,
};
use crate::text::{
    append_decimal, chars_of, decimal, hex_lower, hex_string, starts_with, string_of, trim,
    trim_chars, trimmed,
};
use crate::client_ip::split_on;

verus! {

/// The `Set-Cookie` value that carries a session token; a zero age clears
/// the cookie.
pub open spec fn session_cookie_text(token: Seq<char>, max_age_secs: u64, secure: bool) -> Seq<char> {
    let tail = if secure {
        "; Secure"@
    } else {
        ""@
    };
    if max_age_secs == 0 {
        "michi_web_session=; HttpOnly; SameSite=Strict; Path=/; Max-Age=0; Expires=Thu, 01 Jan 1970 00:00:00 GMT"@
            + tail
    } else {
        "michi_web_session="@ + token + "; HttpOnly; SameSite=Strict; Path=/; Max-Age="@ + decimal(
            max_age_secs as nat,
        ) + tail
    }
}

/// Builds the `Set-Cookie` value for the web session.
pub fn make_session_cookie(token: &str, max_age_secs: u64, secure: bool) -> (s: String)
    ensures
        s@ == session_cookie_text(token@, max_age_secs, secure),
{
    let mut s = if max_age_secs == 0 {
        String::from_str(
            "michi_web_session=; HttpOnly; SameSite=Strict; Path=/; Max-Age=0; Expires=Thu, 01 Jan 1970 00:00:00 GMT",
        )
    } else {
        let mut s = String::from_str("michi_web_session=");
        s.append(token);
        s.append("; HttpOnly; SameSite=Strict; Path=/; Max-Age=");
        append_decimal(&mut s, max_age_secs);
        s
    };
    if secure {
        s.append("; Secure");
    }
    proof {
        reveal_strlit("");
        assert(s@ =~= session_cookie_text(token@, max_age_secs, secure));
    }
    s
}

/// `s` with `p` taken off its front, where it begins with `p`.
pub open spec fn strip_prefix(s: Seq<char>, p: Seq<char>) -> Option<Seq<char>> {
    if p.is_prefix_of(s) {
        Some(s.subrange(p.len() as int, s.len() as int))
    } else {
        None
    }
}

fn strip_prefix_chars(s: &str, p: &str) -> (r: Option<Vec<char>>)
    ensures
        match r {
            Some(v) => strip_prefix(s@, p@) == Some(v@),
            None => strip_prefix(s@, p@) is None,
        },
{
    if !starts_with(s, p) {
        return None;
    }
    let cs = chars_of(s);
    let pv = chars_of(p);
    let mut v: Vec<char> = Vec::new();
    let mut i: usize = pv.len();
    while i < cs.len()
        invariant
            cs@ == s@,
            pv@ == p@,
            pv@.len() <= i <= cs@.len(),
            v@ == cs@.subrange(pv@.len() as int, i as int),
        decreases cs.len() - i,
    {
        v.push(cs[i]);
        proof {
            assert(cs@.subrange(pv@.len() as int, i as int + 1) =~= cs@.subrange(
                pv@.len() as int,
                i as int,
            ).push(cs@[i as int]));
        }
        i = i + 1;
    }
    Some(v)
}

/// The session token carried by the cookie header: the first
/// `michi_web_session=` cookie with a non-empty value.
pub open spec fn cookie_token(cookies: Seq<Seq<char>>) -> Option<Seq<char>>
    decreases cookies.len(),
{
    if cookies.len() == 0 {
        None
    } else {
        match strip_prefix(trim(cookies[0]), "michi_web_session="@) {
            Some(v) => if trim(v).len() > 0 {
                Some(trim(v))
            } else {
                cookie_token(cookies.drop_first())
            },
            None => cookie_token(cookies.drop_first()),
        }
    }
}

/// The token of a request: a non-empty `Bearer` token of the
/// `Authorization` header, else the session cookie.
pub open spec fn spec_extract_token(authorization: Option<Seq<char>>, cookie: Option<Seq<char>>) -> Option<
    Seq<char>,
> {
    let bearer = match authorization {
        Some(a) => match strip_prefix(a, "Bearer "@) {
            Some(t) => if trim(t).len() > 0 {
                Some(trim(t))
            } else {
                None
            },
            None => None,
        },
        None => None,
    };
    match bearer {
        Some(t) => Some(t),
        None => match cookie {
            Some(c) => cookie_token(split_on(c, ';')),
            None => None,
        },
    }
}

/// A session cookie's token is never empty.
pub proof fn lemma_cookie_token_nonempty(cookies: Seq<Seq<char>>)
    ensures
        match cookie_token(cookies) {
            Some(t) => t.len() > 0,
            None => true,
        },
    decreases cookies.len(),
{
    if cookies.len() > 0 {
        lemma_cookie_token_nonempty(cookies.drop_first());
    }
}

/// A request's token is never empty, and a non-empty `Bearer` token of the
/// `Authorization` header wins over the session cookie.
pub proof fn law_bearer_wins_and_token_nonempty(authorization: Option<Seq<char>>, cookie: Option<Seq<char>>)
    ensures
        match spec_extract_token(authorization, cookie) {
            Some(t) => t.len() > 0,
            None => true,
        },
        match authorization {
            Some(a) => match strip_prefix(a, "Bearer "@) {
                Some(t) => trim(t).len() > 0 ==> spec_extract_token(authorization, cookie) == Some(trim(t)),
                None => true,
            },
            None => true,
        },
{
    if let Some(c) = cookie {
        lemma_cookie_token_nonempty(split_on(c, ';'));
    }
}

fn split_semicolons(s: &str) -> (r: Vec<Vec<char>>)
    ensures
        r@.map_values(|p: Vec<char>| p@) == split_on(s@, ';'),
{
    let cs = chars_of(s);
    let mut pieces: Vec<Vec<char>> = Vec::new();
    let mut cur: Vec<char> = Vec::new();
    let mut i: usize = 0;
    while i < cs.len()
        invariant
            cs@ == s@,
            i <= cs@.len(),
            pieces@.map_values(|p: Vec<char>| p@).push(cur@) == split_on(cs@.take(i as int), ';'),
        decreases cs.len() - i,
    {
        let c = cs[i];
        proof {
            let pre = cs@.take(i as int);
            let nxt = cs@.take(i as int + 1);
            assert(nxt.drop_last() =~= pre);
            assert(nxt.last() == c);
        }
        let ghost old_pieces = pieces@.map_values(|p: Vec<char>| p@);
        let ghost old_cur = cur@;
        if c == ';' {
            let done = cur;
            pieces.push(done);
            cur = Vec::new();
            proof {
                assert(pieces@.map_values(|p: Vec<char>| p@) =~= old_pieces.push(old_cur));
                assert(pieces@.map_values(|p: Vec<char>| p@).push(cur@) =~= old_pieces.push(
                    old_cur,
                ).push(Seq::empty()));
            }
        } else {
            cur.push(c);
            proof {
                assert(pieces@.map_values(|p: Vec<char>| p@).push(cur@) =~= old_pieces.push(
                    old_cur,
                ).update(old_pieces.len() as int, old_cur.push(c)));
            }
        }
        i = i + 1;
    }
    proof {
        assert(cs@.take(cs@.len() as int) =~= cs@);
    }
    let ghost before = pieces@.map_values(|p: Vec<char>| p@);
    pieces.push(cur);
    proof {
        assert(pieces@.map_values(|p: Vec<char>| p@) =~= before.push(cur@));
    }
    pieces
}

/// Reads the token of a request from its `Authorization` and `Cookie`
/// header values.
pub fn extract_token(authorization: Option<&str>, cookie: Option<&str>) -> (r: Option<String>)
    ensures
        (match r {
            Some(t) => Some(t@),
            None => None,
        }) == spec_extract_token(
            match authorization {
                Some(a) => Some(a@),
                None => None,
            },
            match cookie {
                Some(c) => Some(c@),
                None => None,
            },
        ),
{
    let ghost auth_g = match authorization {
        Some(a) => Some(a@),
        None => None,
    };
    let ghost cookie_g = match cookie {
        Some(c) => Some(c@),
        None => None,
    };
    if let Some(a) = authorization {
        if let Some(t) = strip_prefix_chars(a, "Bearer ") {
            let tt = trim_chars(t.as_slice());
            if tt.len() > 0 {
                return Some(string_of(tt.as_slice()));
            }
        }
    }
    assert(spec_extract_token(auth_g, cookie_g) == match cookie_g {
        Some(c) => cookie_token(split_on(c, ';')),
        None => None,
    });
    let c = match cookie {
        Some(c) => c,
        None => {
            return None;
        },
    };
    let pieces = split_semicolons(c);
    let ghost all = pieces@.map_values(|p: Vec<char>| p@);
    let mut i: usize = 0;
    proof {
        assert(all.skip(0) =~= all);
    }
    while i < pieces.len()
        invariant
            all == pieces@.map_values(|p: Vec<char>| p@),
            all == split_on(c@, ';'),
            cookie_g == Some(c@),
            cookie_g == (match cookie {
                Some(c) => Some(c@),
                None => None,
            }),
            auth_g == (match authorization {
                Some(a) => Some(a@),
                None => None,
            }),
            spec_extract_token(auth_g, cookie_g) == cookie_token(all),
            i <= pieces@.len(),
            cookie_token(all) == cookie_token(all.skip(i as int)),
        decreases pieces.len() - i,
    {
        proof {
            assert(all.skip(i as int).drop_first() =~= all.skip(i as int + 1));
            assert(all.skip(i as int)[0] == pieces@[i as int]@);
        }
        let piece = trim_chars(pieces[i].as_slice());
        let text = string_of(piece.as_slice());
        if let Some(v) = strip_prefix_chars(text.as_str(), "michi_web_session=") {
            let tv = trim_chars(v.as_slice());
            if tv.len() > 0 {
                return Some(string_of(tv.as_slice()));
            }
        }
        i = i + 1;
    }
    proof {
        assert(all.skip(i as int) =~= Seq::<Seq<char>>::empty());
    }
    None
}

/// The ASCII lower-case form of a character.
pub open spec fn ascii_lower(c: char) -> char {
    if 'A' <= c && c <= 'Z' {
        ((c as int) + 32) as char
    } else {
        c
    }
}

/// Whether two texts are equal up to ASCII case (`str::eq_ignore_ascii_case`).
pub open spec fn eq_ignore_ascii_case(a: Seq<char>, b: Seq<char>) -> bool {
    a.len() == b.len() && forall|i: int| 0 <= i < a.len() ==> ascii_lower(#[trigger] a[i]) == ascii_lower(b[i])
}

fn lower(c: char) -> (r: char)
    ensures
        r == ascii_lower(c),
{
    if 'A' <= c && c <= 'Z' {
        ((c as u8) + 32) as char
    } else {
        c
    }
}

/// Whether a request came over HTTPS: only a trusted proxy's
/// `X-Forwarded-Proto` header says so.
pub fn is_secure_request(peer: Option<IpValue>, forwarded_proto: Option<&str>, policy: &ProxyPolicy) -> (r:
    bool)
    ensures
        r == (match (peer, forwarded_proto) {
            (Some(p), Some(proto)) => policy.trusts(p) && eq_ignore_ascii_case(proto@, "https"@),
            _ => false,
        }),
{
    let p = match peer {
        Some(p) => p,
        None => {
            return false;
        },
    };
    if !policy.is_trusted_proxy(p) {
        return false;
    }
    let proto = match forwarded_proto {
        Some(x) => x,
        None => {
            return false;
        },
    };
    let a = chars_of(proto);
    let b = chars_of("https");
    if a.len() != b.len() {
        return false;
    }
    let mut i: usize = 0;
    while i < a.len()
        invariant
            forwarded_proto == Some(proto),
            a@ == proto@,
            b@ == "https"@,
            a@.len() == b@.len(),
            i <= a@.len(),
            forall|j: int| 0 <= j < i ==> ascii_lower(#[trigger] a@[j]) == ascii_lower(b@[j]),
        decreases a.len() - i,
    {
        if lower(a[i]) != lower(b[i]) {
            proof {
                assert(ascii_lower(proto@[i as int]) != ascii_lower("https"@[i as int]));
            }
            return false;
        }
        i = i + 1;
    }
    true
}

/// The path prefixes that only an administrator may reach.
pub open spec fn admin_prefixes() -> Seq<Seq<char>> {
    seq![
        "/api/v1/audit"@,
        "/api/v1/backup"@,
        "/api/v1/config"@,
        "/api/v1/devices"@,
        "/api/v1/diagnostics"@,
        "/api/v1/health/mounts"@,
        "/api/v1/health/storage"@,
        "/api/v1/health/verify"@,
        "/api/v1/import"@,
        "/api/v1/jobs"@,
        "/api/v1/library/scan"@,
        "/api/v1/link/devices"@,
        "/api/v1/modules"@,
        "/api/v1/pair/start"@,
        "/api/v1/pair/qr"@,
        "/api/v1/receivers"@,
        "/api/v1/rooms"@,
        "/api/v1/settings"@,
        "/api/v1/setup"@,
        "/api/v1/sources"@,
        "/api/v1/webhook"@,
        "/api/v1/transcode"@,
        "/api/v1/update"@,
    ]
}

/// Whether `p` ends `s`.
pub open spec fn is_suffix(p: Seq<char>, s: Seq<char>) -> bool {
    p.len() <= s.len() && s.subrange(s.len() - p.len(), s.len() as int) == p
}

/// Whether a path needs an administrator session.  A QR claim or QR image
/// under `/api/v1/pair/qr/` is open to everyone.
pub open spec fn spec_is_admin_route(path: Seq<char>) -> bool {
    if "/api/v1/pair/qr/"@.is_prefix_of(path) && (is_suffix("/claim"@, path) || is_suffix(
        "/svg"@,
        path,
    )) {
        false
    } else {
        exists|k: int|
            0 <= k < admin_prefixes().len() && (#[trigger] admin_prefixes()[k]).is_prefix_of(path)
    }
}

fn ends_with(s: &str, p: &str) -> (r: bool)
    ensures
        r == is_suffix(p@, s@),
{
    let a = chars_of(s);
    let b = chars_of(p);
    if b.len() > a.len() {
        return false;
    }
    let off = a.len() - b.len();
    let mut i: usize = 0;
    while i < b.len()
        invariant
            a@ == s@,
            b@ == p@,
            b@.len() <= a@.len(),
            off == a@.len() - b@.len(),
            i <= b@.len(),
            forall|j: int| 0 <= j < i ==> a@[off + j] == b@[j],
        decreases b.len() - i,
    {
        assert(off + i < a.len());
        if a[off + i] != b[i] {
            return false;
        }
        i = i + 1;
    }
    proof {
        assert(s@.subrange(s@.len() - p@.len(), s@.len() as int) =~= p@);
    }
    true
}

/// Whether a request path needs an administrator session.
pub fn is_admin_route(path: &str) -> (r: bool)
    ensures
        r == spec_is_admin_route(path@),
{
    if starts_with(path, "/api/v1/pair/qr/") && (ends_with(path, "/claim") || ends_with(path, "/svg")) {
        return false;
    }
    let prefixes: [&str; 23] = [
        "/api/v1/audit",
        "/api/v1/backup",
        "/api/v1/config",
        "/api/v1/devices",
        "/api/v1/diagnostics",
        "/api/v1/health/mounts",
        "/api/v1/health/storage",
        "/api/v1/health/verify",
        "/api/v1/import",
        "/api/v1/jobs",
        "/api/v1/library/scan",
        "/api/v1/link/devices",
        "/api/v1/modules",
        "/api/v1/pair/start",
        "/api/v1/pair/qr",
        "/api/v1/receivers",
        "/api/v1/rooms",
        "/api/v1/settings",
        "/api/v1/setup",
        "/api/v1/sources",
        "/api/v1/webhook",
        "/api/v1/transcode",
        "/api/v1/update",
    ];
    let ghost ps = prefixes@.map_values(|p: &str| p@);
    assert(ps =~= admin_prefixes());
    let mut i: usize = 0;
    while i < 23
        invariant
            ps == prefixes@.map_values(|p: &str| p@),
            ps == admin_prefixes(),
            !("/api/v1/pair/qr/"@.is_prefix_of(path@) && (is_suffix("/claim"@, path@) || is_suffix(
                "/svg"@,
                path@,
            ))),
            i <= 23,
            forall|k: int| 0 <= k < i ==> !(#[trigger] admin_prefixes()[k]).is_prefix_of(path@),
        decreases 23 - i,
    {
        proof {
            assert(admin_prefixes()[i as int] == prefixes@[i as int]@);
        }
        if starts_with(path, prefixes[i]) {
            proof {
                assert(admin_prefixes()[i as int].is_prefix_of(path@));
            }
            return true;
        }
        i = i + 1;
    }
    false
}

/// How many attempts a client made in its current window, and when the
/// window began (milliseconds on a monotonic clock).
#[derive(Debug, Clone, Copy, PartialEq, Eq, Structural)]
pub struct AttemptWindow {
    pub count: u32,
    pub started_ms: u64,
}

/// The decision on one attempt against a per-minute limit, and the client's
/// window afterwards.  A window older than 60 whole seconds starts afresh;
/// within a window, attempts beyond the limit are refused and not counted.
pub open spec fn rate_step(window: Option<AttemptWindow>, now_ms: u64, max_attempts: u32) -> (
    bool,
    AttemptWindow,
) {
    let w = match window {
        Some(w) => w,
        None => AttemptWindow { count: 0, started_ms: now_ms },
    };
    let elapsed_secs = if now_ms >= w.started_ms {
        (now_ms - w.started_ms) / 1000
    } else {
        0
    };
    if elapsed_secs > 60 {
        (true, AttemptWindow { count: 1, started_ms: now_ms })
    } else if w.count >= max_attempts {
        (false, w)
    } else {
        (true, AttemptWindow { count: (w.count + 1) as u32, started_ms: w.started_ms })
    }
}

/// Counts one attempt of a client: whether it is allowed, and the window to
/// keep for the client.
pub fn check_attempt(window: Option<AttemptWindow>, now_ms: u64, max_attempts: u32) -> (r: (
    bool,
    AttemptWindow,
))
    ensures
        r == rate_step(window, now_ms, max_attempts),
{
    let w = match window {
        Some(w) => w,
        None => AttemptWindow { count: 0, started_ms: now_ms },
    };
    let elapsed_secs: u64 = if now_ms >= w.started_ms {
        (now_ms - w.started_ms) / 1000
    } else {
        0
    };
    if elapsed_secs > 60 {
        (true, AttemptWindow { count: 1, started_ms: now_ms })
    } else if w.count >= max_attempts {
        (false, w)
    } else {
        (true, AttemptWindow { count: w.count + 1, started_ms: w.started_ms })
    }
}

/// The login limit per minute: the configured one, at least 1.
pub fn login_attempt_limit(configured: u32) -> (r: u32)
    ensures
        r == if configured > 1 {
            configured
        } else {
            1
        },
{
    if configured > 1 {
        configured
    } else {
        1
    }
}

/// Registration attempts allowed per minute and client.
pub const REGISTER_ATTEMPTS_PER_MINUTE: u32 = 5;

/// Within one window no more attempts are allowed than the limit.
pub proof fn law_rate_limit_bounds_attempts(w: AttemptWindow, now_ms: u64, max_attempts: u32)
    requires
        max_attempts >= 1,
        w.count <= max_attempts,
    ensures
        rate_step(Some(w), now_ms, max_attempts).1.count <= max_attempts,
        !rate_step(Some(w), now_ms, max_attempts).0 ==> rate_step(Some(w), now_ms, max_attempts).1
            == w,
{
}

/// A cached session: when it expires (milliseconds on a monotonic clock) and
/// whose it is.
#[derive(Debug, Clone, Copy, PartialEq, Eq, Structural)]
pub struct SessionData {
    pub expiry_ms: u64,
    pub user_id: u128,
}

/// A session token with its data.
#[derive(Debug)]
pub struct SessionEntry {
    pub token: String,
    pub data: SessionData,
}

/// How long a login session lasts: a day, in milliseconds.
pub const SESSION_DURATION_MS: u64 = 86_400_000;

/// The user a session token stands for at `now_ms`: the cached session's
/// user while it has not expired.
pub open spec fn session_user(m: Map<Seq<char>, SessionData>, token: Seq<char>, now_ms: u64) -> Option<u128> {
    if m.contains_key(token) && m[token].expiry_ms > now_ms {
        Some(m[token].user_id)
    } else {
        None
    }
}

/// The sessions after `token` was opened for `user_id` at `created_ms`.
pub open spec fn opened_session(
    m: Map<Seq<char>, SessionData>,
    token: Seq<char>,
    user_id: u128,
    created_ms: u64,
) -> Map<Seq<char>, SessionData> {
    m.insert(token, SessionData { expiry_ms: (created_ms + SESSION_DURATION_MS) as u64, user_id })
}

/// A session opened at `created_ms` stands for its user for exactly a day:
/// a lookup before the day is over finds the user, one after it finds
/// nothing; once invalidated it is found no more; other tokens are not
/// affected by it.
pub proof fn law_session_lasts_a_day(
    m: Map<Seq<char>, SessionData>,
    token: Seq<char>,
    user_id: u128,
    created_ms: u64,
    now_ms: u64,
    other: Seq<char>,
)
    requires
        created_ms <= u64::MAX - SESSION_DURATION_MS,
    ensures
        session_user(opened_session(m, token, user_id, created_ms), token, now_ms) == (if now_ms
            < created_ms + SESSION_DURATION_MS {
            Some(user_id)
        } else {
            None::<u128>
        }),
        session_user(opened_session(m, token, user_id, created_ms).remove(token), token, now_ms) is None,
        other != token ==> session_user(opened_session(m, token, user_id, created_ms), other, now_ms)
            == session_user(m, other, now_ms),
{
}

/// Whether a text has the form of a session token: 32 bytes in URL-safe
/// base64 without padding, which makes 43 characters.
pub open spec fn is_session_token(t: Seq<char>) -> bool {
    &&& exists|b: Seq<u8>| b.len() == 32 && t == base64_url_no_pad(b)
    &&& t.len() == 43
    &&& forall|i: int| 0 <= i < t.len() ==> url_safe_base64_char(#[trigger] t[i])
}

/// A fresh session token: 32 bytes from the operating system's random
/// source in URL-safe base64 without padding.
pub fn new_session_token() -> (t: String)
    ensures
        is_session_token(t@),
{
    let bytes = random_token_bytes();
    let t = base64_url_encode(bytes.as_slice());
    proof {
        lemma_base64_url_shape(bytes@);
        assert(bytes@.len() == 32 && t@ == base64_url_no_pad(bytes@));
    }
    t
}

/// The in-memory cache of login sessions, keyed by token.
#[derive(Debug)]
pub struct SessionCache {
    entries: Vec<SessionEntry>,
}

/// The tokens of a list of entries.
pub open spec fn entry_tokens(entries: Seq<SessionEntry>) -> Seq<Seq<char>> {
    entries.map_values(|e: SessionEntry| e.token@)
}

impl View for SessionCache {
    type V = Map<Seq<char>, SessionData>;

    closed spec fn view(&self) -> Map<Seq<char>, SessionData> {
        Map::new(
            |t: Seq<char>| entry_tokens(self.entries@).contains(t),
            |t: Seq<char>|
                self.entries@[choose|i: int|
                    0 <= i < self.entries@.len() && #[trigger] self.entries@[i].token@ == t].data,
        )
    }
}

impl SessionCache {
    /// No token occurs twice.
    pub closed spec fn wf(&self) -> bool {
        distinct_tokens(self.entries@)
    }

    proof fn lemma_view_at(&self, i: int)
        requires
            self.wf(),
            0 <= i < self.entries@.len(),
        ensures
            self@.contains_key(self.entries@[i].token@),
            self@[self.entries@[i].token@] == self.entries@[i].data,
    {
        let t = self.entries@[i].token@;
        assert(entry_tokens(self.entries@)[i] == t);
        let k = choose|k: int| 0 <= k < self.entries@.len() && #[trigger] self.entries@[k].token@ == t;
        assert(0 <= k < self.entries@.len() && self.entries@[k].token@ == t);
        if k != i {
            if k < i {
                assert(self.entries@[k].token@ != self.entries@[i].token@);
            } else {
                assert(self.entries@[i].token@ != self.entries@[k].token@);
            }
        }
    }

    proof fn lemma_not_in_view(&self, t: Seq<char>)
        requires
            forall|i: int| 0 <= i < self.entries@.len() ==> self.entries@[i].token@ != t,
        ensures
            !self@.contains_key(t),
    {
        if entry_tokens(self.entries@).contains(t) {
            let i = choose|i: int|
                0 <= i < entry_tokens(self.entries@).len() && entry_tokens(self.entries@)[i] == t;
            assert(self.entries@[i].token@ == t);
        }
    }

    /// Opens a session for `user_id` at `now_ms`: a fresh token of 32
    /// random bytes in URL-safe base64 without padding, cached until one
    /// session length (a day) later.  Gives the token.
    pub fn create_session(&mut self, user_id: u128, now_ms: u64) -> (t: String)
        requires
            old(self).wf(),
            now_ms <= u64::MAX - SESSION_DURATION_MS,
        ensures
            final(self).wf(),
            is_session_token(t@),
            final(self)@ == opened_session(old(self)@, t@, user_id, now_ms),
    {
        let t = new_session_token();
        self.insert(t.as_str(), SessionData { expiry_ms: now_ms + SESSION_DURATION_MS, user_id });
        t
    }

    /// An empty cache.
    pub fn new() -> (c: Self)
        ensures
            c.wf(),
            c@ == Map::<Seq<char>, SessionData>::empty(),
    {
        let c = SessionCache { entries: Vec::new() };
        proof {
            assert(c@ =~= Map::<Seq<char>, SessionData>::empty());
        }
        c
    }

    fn index_of(&self, token: &str) -> (r: Option<usize>)
        requires
            self.wf(),
        ensures
            match r {
                Some(i) => i < self.entries@.len() && self.entries@[i as int].token@ == token@,
                None => forall|i: int| 0 <= i < self.entries@.len() ==> self.entries@[i].token@ != token@,
            },
    {
        let mut i: usize = 0;
        while i < self.entries.len()
            invariant
                i <= self.entries@.len(),
                forall|j: int| 0 <= j < i ==> self.entries@[j].token@ != token@,
            decreases self.entries.len() - i,
        {
            if crate::text::str_eq(self.entries[i].token.as_str(), token) {
                return Some(i);
            }
            i = i + 1;
        }
        None
    }

    /// Records a session, replacing any earlier one under the same token.
    pub fn insert(&mut self, token: &str, data: SessionData)
        requires
            old(self).wf(),
        ensures
            final(self).wf(),
            final(self)@ == old(self)@.insert(token@, data),
    {
        let entry = SessionEntry { token: String::from_str(token), data };
        match self.index_of(token) {
            Some(i) => {
                let ghost before = self.entries@;
                self.entries.set(i, entry);
                proof {
                    assert forall|a: int, b: int|
                        0 <= a < b < self.entries@.len() implies #[trigger] self.entries@[a].token@
                        != #[trigger] self.entries@[b].token@ by {
                        assert(before[a].token@ != before[b].token@ || a == b);
                    }
                    assert forall|t: Seq<char>| #[trigger] self@.contains_key(t) == old(self)@.insert(
                        token@,
                        data,
                    ).contains_key(t) by {
                        if t == token@ {
                            self.lemma_view_at(i as int);
                        } else if old(self)@.contains_key(t) {
                            let k = choose|k: int|
                                0 <= k < entry_tokens(before).len() && entry_tokens(before)[k] == t;
                            assert(before[k].token@ == t);
                            self.lemma_view_at(k);
                        } else {
                            if self@.contains_key(t) {
                                let k = choose|k: int|
                                    0 <= k < entry_tokens(self.entries@).len() && entry_tokens(
                                        self.entries@,
                                    )[k] == t;
                                assert(self.entries@[k].token@ == t);
                                assert(k != i);
                                assert(entry_tokens(before)[k] == t);
                            }
                        }
                    }
                    assert forall|t: Seq<char>| #[trigger] self@.contains_key(t) implies self@[t]
                        == old(self)@.insert(token@, data)[t] by {
                        let k = choose|k: int|
                            0 <= k < entry_tokens(self.entries@).len() && entry_tokens(
                                self.entries@,
                            )[k] == t;
                        assert(self.entries@[k].token@ == t);
                        self.lemma_view_at(k);
                        if k != i {
                            assert(before[k] == self.entries@[k]);
                            old(self).lemma_view_at(k);
                        }
                    }
                    assert(self@ =~= old(self)@.insert(token@, data));
                }
            },
            None => {
                let ghost before = self.entries@;
                self.entries.push(entry);
                proof {
                    assert forall|a: int, b: int|
                        0 <= a < b < self.entries@.len() implies #[trigger] self.entries@[a].token@
                        != #[trigger] self.entries@[b].token@ by {
                        if b < before.len() {
                            assert(before[a].token@ != before[b].token@);
                        }
                    }
                    let n = before.len() as int;
                    assert forall|t: Seq<char>| #[trigger] self@.contains_key(t) == old(self)@.insert(
                        token@,
                        data,
                    ).contains_key(t) by {
                        if t == token@ {
                            self.lemma_view_at(n);
                        } else if old(self)@.contains_key(t) {
                            let k = choose|k: int|
                                0 <= k < entry_tokens(before).len() && entry_tokens(before)[k] == t;
                            assert(before[k].token@ == t);
                            assert(self.entries@[k] == before[k]);
                            self.lemma_view_at(k);
                        } else {
                            if self@.contains_key(t) {
                                let k = choose|k: int|
                                    0 <= k < entry_tokens(self.entries@).len() && entry_tokens(
                                        self.entries@,
                                    )[k] == t;
                                assert(self.entries@[k].token@ == t);
                                assert(k != n);
                                assert(entry_tokens(before)[k] == t);
                            }
                        }
                    }
                    assert forall|t: Seq<char>| #[trigger] self@.contains_key(t) implies self@[t]
                        == old(self)@.insert(token@, data)[t] by {
                        let k = choose|k: int|
                            0 <= k < entry_tokens(self.entries@).len() && entry_tokens(
                                self.entries@,
                            )[k] == t;
                        assert(self.entries@[k].token@ == t);
                        self.lemma_view_at(k);
                        if k != n {
                            assert(before[k] == self.entries@[k]);
                            old(self).lemma_view_at(k);
                        }
                    }
                    assert(self@ =~= old(self)@.insert(token@, data));
                }
            },
        }
    }

    /// The user of a live session under `token`: one whose expiry lies after
    /// `now_ms`.
    pub fn lookup(&self, token: &str, now_ms: u64) -> (r: Option<u128>)
        requires
            self.wf(),
        ensures
            r == session_user(self@, token@, now_ms),
    {
        match self.index_of(token) {
            Some(i) => {
                proof {
                    self.lemma_view_at(i as int);
                }
                let d = self.entries[i].data;
                if d.expiry_ms > now_ms {
                    Some(d.user_id)
                } else {
                    None
                }
            },
            None => {
                proof {
                    self.lemma_not_in_view(token@);
                }
                None
            },
        }
    }

    /// Keeps only the entries that `kept` admits for their data.
    fn retain_where(&mut self, user: Option<u128>, now_ms: u64)
        requires
            old(self).wf(),
        ensures
            final(self).wf(),
            forall|t: Seq<char>| #[trigger]
                final(self)@.contains_key(t) == (old(self)@.contains_key(t) && kept(
                    old(self)@[t],
                    user,
                    now_ms,
                )),
            forall|t: Seq<char>| #[trigger]
                final(self)@.contains_key(t) ==> final(self)@[t] == old(self)@[t],
    {
        let ghost before = self.entries@;
        let ghost pred = |e: SessionEntry| kept(e.data, user, now_ms);
        let mut out: Vec<SessionEntry> = Vec::new();
        let mut i: usize = 0;
        while i < self.entries.len()
            invariant
                self.entries@ == before,
                pred == (|e: SessionEntry| kept(e.data, user, now_ms)),
                i <= before.len(),
                out@ == before.take(i as int).filter(pred),
            decreases before.len() - i,
        {
            let d = self.entries[i].data;
            let keep = match user {
                Some(u) => d.user_id != u,
                None => d.expiry_ms > now_ms,
            };
            proof {
                assert(before.take(i as int + 1) =~= before.take(i as int).push(before[i as int]));
                before.take(i as int).lemma_filter_push(before[i as int], pred);
            }
            assert(pred(before[i as int]) == keep);
            if keep {
                let e = SessionEntry { token: self.entries[i].token.clone(), data: d };
                assert(e == before[i as int]);
                out.push(e);
            }
            i = i + 1;
        }
        proof {
            assert(before.take(before.len() as int) =~= before);
        }
        self.entries = out;
        proof {
            lemma_filter_distinct(before, pred);
            let after = before.filter(pred);
            assert forall|t: Seq<char>| #[trigger] self@.contains_key(t) implies old(self)@.contains_key(t)
                && kept(old(self)@[t], user, now_ms) && self@[t] == old(self)@[t] by {
                let a = choose|a: int|
                    0 <= a < entry_tokens(after).len() && entry_tokens(after)[a] == t;
                assert(after[a].token@ == t);
                self.lemma_view_at(a);
                before.lemma_filter_pred(pred, a);
                assert(after.contains(after[a]));
                before.lemma_filter_contains_rev(pred, after[a]);
                let k = choose|k: int| 0 <= k < before.len() && before[k] == after[a];
                old(self).lemma_view_at(k);
            }
            assert forall|t: Seq<char>| old(self)@.contains_key(t) && kept(old(self)@[t], user, now_ms)
                implies #[trigger] self@.contains_key(t) by {
                let k = choose|k: int|
                    0 <= k < entry_tokens(before).len() && entry_tokens(before)[k] == t;
                assert(before[k].token@ == t);
                old(self).lemma_view_at(k);
                before.lemma_filter_contains(pred, k);
                let a = choose|a: int| 0 <= a < after.len() && after[a] == before[k];
                assert(entry_tokens(after)[a] == t);
            }
        }
    }

    /// Forgets the session under `token`.
    pub fn invalidate(&mut self, token: &str)
        requires
            old(self).wf(),
        ensures
            final(self).wf(),
            final(self)@ == old(self)@.remove(token@),
    {
        match self.index_of(token) {
            Some(i) => {
                let ghost before = self.entries@;
                self.entries.remove(i);
                proof {
                    assert forall|a: int, b: int|
                        0 <= a < b < self.entries@.len() implies #[trigger] self.entries@[a].token@
                        != #[trigger] self.entries@[b].token@ by {
                        let a2 = if a < i { a } else { a + 1 };
                        let b2 = if b < i { b } else { b + 1 };
                        assert(self.entries@[a] == before[a2]);
                        assert(self.entries@[b] == before[b2]);
                        assert(before[a2].token@ != before[b2].token@);
                    }
                    assert forall|t: Seq<char>| #[trigger] self@.contains_key(t) == old(self)@.remove(
                        token@,
                    ).contains_key(t) by {
                        if self@.contains_key(t) {
                            let a = choose|a: int|
                                0 <= a < entry_tokens(self.entries@).len() && entry_tokens(self.entries@)[a] == t;
                            assert(self.entries@[a].token@ == t);
                            let a2 = if a < i { a } else { a + 1 };
                            assert(self.entries@[a] == before[a2]);
                            old(self).lemma_view_at(a2);
                            assert(a2 != i);
                            assert(before[a2].token@ != before[i as int].token@ || a2 == i);
                        } else if old(self)@.contains_key(t) && t != token@ {
                            let k = choose|k: int|
                                0 <= k < entry_tokens(before).len() && entry_tokens(before)[k] == t;
                            assert(before[k].token@ == t);
                            assert(k != i);
                            let k2 = if k < i { k } else { k - 1 };
                            assert(self.entries@[k2] == before[k]);
                            assert(entry_tokens(self.entries@)[k2] == t);
                        }
                    }
                    assert forall|t: Seq<char>| #[trigger] self@.contains_key(t) implies self@[t]
                        == old(self)@[t] by {
                        let a = choose|a: int|
                            0 <= a < entry_tokens(self.entries@).len() && entry_tokens(self.entries@)[a] == t;
                        assert(self.entries@[a].token@ == t);
                        self.lemma_view_at(a);
                        let a2 = if a < i { a } else { a + 1 };
                        assert(self.entries@[a] == before[a2]);
                        old(self).lemma_view_at(a2);
                    }
                    assert(self@ =~= old(self)@.remove(token@));
                }
            },
            None => {
                proof {
                    self.lemma_not_in_view(token@);
                    assert(self@ =~= old(self)@.remove(token@));
                }
            },
        }
    }

    /// Forgets every session of `user_id`.
    pub fn invalidate_user(&mut self, user_id: u128)
        requires
            old(self).wf(),
        ensures
            final(self).wf(),
            final(self)@ == old(self)@.restrict(
                old(self)@.dom().filter(|t: Seq<char>| old(self)@[t].user_id != user_id),
            ),
    {
        self.retain_where(Some(user_id), 0);
        proof {
            assert(self@ =~= old(self)@.restrict(
                old(self)@.dom().filter(|t: Seq<char>| old(self)@[t].user_id != user_id),
            ));
        }
    }

    /// Forgets every session that expired by `now_ms`.
    pub fn cleanup(&mut self, now_ms: u64)
        requires
            old(self).wf(),
        ensures
            final(self).wf(),
            final(self)@ == old(self)@.restrict(
                old(self)@.dom().filter(|t: Seq<char>| old(self)@[t].expiry_ms > now_ms),
            ),
    {
        self.retain_where(None, now_ms);
        proof {
            assert(self@ =~= old(self)@.restrict(
                old(self)@.dom().filter(|t: Seq<char>| old(self)@[t].expiry_ms > now_ms),
            ));
        }
    }
}

/// Tokens are pairwise distinct.
pub open spec fn distinct_tokens(s: Seq<SessionEntry>) -> bool {
    forall|i: int, j: int| 0 <= i < j < s.len() ==> #[trigger] s[i].token@ != #[trigger] s[j].token@
}

proof fn lemma_filter_distinct(s: Seq<SessionEntry>, pred: spec_fn(SessionEntry) -> bool)
    requires
        distinct_tokens(s),
    ensures
        distinct_tokens(s.filter(pred)),
    decreases s.len(),
{
    if s.len() > 0 {
        let p = s.drop_last();
        let x = s.last();
        assert(s =~= p.push(x));
        assert(distinct_tokens(p)) by {
            assert forall|i: int, j: int| 0 <= i < j < p.len() implies #[trigger] p[i].token@
                != #[trigger] p[j].token@ by {
                assert(p[i] == s[i] && p[j] == s[j]);
            }
        }
        lemma_filter_distinct(p, pred);
        p.lemma_filter_push(x, pred);
        if pred(x) {
            let f = p.filter(pred);
            assert forall|i: int, j: int| 0 <= i < j < f.push(x).len() implies #[trigger] f.push(
                x,
            )[i].token@ != #[trigger] f.push(x)[j].token@ by {
                if j == f.len() {
                    assert(f.contains(f[i]));
                    p.lemma_filter_contains_rev(pred, f[i]);
                    let k = choose|k: int| 0 <= k < p.len() && p[k] == f[i];
                    assert(s[k] == p[k]);
                    assert(s[k].token@ != s[s.len() - 1].token@);
                } else {
                    assert(f.push(x)[i] == f[i] && f.push(x)[j] == f[j]);
                }
            }
        }
    }
}

/// Whether an entry survives a removal by user (`Some`) or by expiry
/// (`None`).
pub open spec fn kept(d: SessionData, user: Option<u128>, now_ms: u64) -> bool {
    match user {
        Some(u) => d.user_id != u,
        None => d.expiry_ms > now_ms,
    }
}

/// A session that was just recorded is found until it expires.
pub proof fn law_session_lookup_after_insert(
    m: Map<Seq<char>, SessionData>,
    token: Seq<char>,
    data: SessionData,
    now_ms: u64,
)
    requires
        data.expiry_ms > now_ms,
    ensures
        m.insert(token, data).contains_key(token),
        m.insert(token, data)[token].expiry_ms > now_ms,
        m.insert(token, data)[token].user_id == data.user_id,
{
}

/// An invalidated token is no longer found.
pub proof fn law_session_gone_after_invalidate(m: Map<Seq<char>, SessionData>, token: Seq<char>)
    ensures
        !m.remove(token).contains_key(token),
{
}

/// The lowercase hexadecimal SHA-256 digest of a session token, as it is
/// stored.
pub fn hash_token(token: &str) -> (h: String)
    ensures
        h@ == hex_lower(sha256_digest(vstd::utf8::encode_utf8(token@))),
{
    let d = sha256(token.as_bytes());
    hex_string(&d)
}

/// The number of bytes that `c` takes in UTF-8.
pub open spec fn utf8_width(c: char) -> nat {
    if (c as u32) < 0x80 {
        1
    } else if (c as u32) < 0x800 {
        2
    } else if (c as u32) < 0x10000 {
        3
    } else {
        4
    }
}

/// The number of bytes that `s` takes in UTF-8 (`str::len`).
pub open spec fn utf8_len(s: Seq<char>) -> nat
    decreases s.len(),
{
    if s.len() == 0 {
        0
    } else {
        utf8_len(s.drop_last()) + utf8_width(s.last())
    }
}

proof fn lemma_utf8_len_prefix(s: Seq<char>, i: int)
    requires
        0 <= i <= s.len(),
    ensures
        utf8_len(s.take(i)) <= utf8_len(s),
    decreases s.len() - i,
{
    if i < s.len() {
        lemma_utf8_len_prefix(s, i + 1);
        assert(s.take(i + 1).drop_last() =~= s.take(i));
    } else {
        assert(s.take(i) =~= s);
    }
}

/// Whether a registration password is long enough: at least 8 bytes once
/// surrounding white space is taken off.
pub fn password_long_enough(password: &str) -> (r: bool)
    ensures
        r == (utf8_len(trim(password@)) >= 8),
{
    let cs = chars_of(password);
    let t = trim_chars(cs.as_slice());
    let mut count: u64 = 0;
    let mut i: usize = 0;
    while i < t.len()
        invariant
            t@ == trim(password@),
            i <= t@.len(),
            count == utf8_len(t@.take(i as int)),
            count < 8,
        decreases t.len() - i,
    {
        let c = t[i];
        let w: u64 = if (c as u32) < 0x80 {
            1
        } else if (c as u32) < 0x800 {
            2
        } else if (c as u32) < 0x10000 {
            3
        } else {
            4
        };
        proof {
            assert(t@.take(i as int + 1).drop_last() =~= t@.take(i as int));
        }
        count = count + w;
        i = i + 1;
        if count >= 8 {
            proof {
                lemma_utf8_len_prefix(t@, i as int);
            }
            return true;
        }
    }
    proof {
        assert(t@.take(i as int) =~= t@);
    }
    false
}

/// A failed password check.
#[derive(Debug)]
pub enum PasswordError {
    /// The stored hash could not be read, or hashing failed; the text is the
    /// crate's message.
    Hash(String),
}

/// Checks a password against a stored PHC hash string.
pub fn verify_password(password: &str, hash: &str) -> (r: Result<bool, PasswordError>)
    ensures
        match r {
            Ok(b) => argon2_accepts(vstd::utf8::encode_utf8(password@), hash@) == Some(b),
            Err(_) => argon2_accepts(vstd::utf8::encode_utf8(password@), hash@) is None,
        },
{
    match verify_password_argon2(password.as_bytes(), hash) {
        Ok(b) => Ok(b),
        Err(e) => Err(PasswordError::Hash(password_hash_error_text(&e))),
    }
}

/// Hashes a password with a fresh random salt; the hash accepts the password.
/// It fails only for a password longer than 0xFFFF_FFFF bytes.
pub fn hash_password(password: &str) -> (r: Result<String, PasswordError>)
    ensures
        r matches Ok(h) ==> argon2_accepts(vstd::utf8::encode_utf8(password@), h@) == Some(true),
        r is Ok <==> vstd::utf8::encode_utf8(password@).len() <= 0xFFFF_FFFF,
{
    match hash_password_argon2(password.as_bytes()) {
        Ok(h) => Ok(h),
        Err(e) => Err(PasswordError::Hash(password_hash_error_text(&e))),
    }
}


// ── The gates in front of the API ─────────────────────────────────

/// An answer that turns a request away: status and message.
#[derive(Debug)]
pub struct Refusal {
    pub status: u16,
    pub message: String,
}

/// The first decision on a request to a `/api/v1` route, made from the
/// token and the path alone.
#[derive(Debug)]
pub enum V1Gate {
    /// Turn the request away.
    Refuse(Refusal),
    /// Look up the administrator session of this token.
    CheckAdmin(String),
    /// Check this token as a user session or a paired device's token.
    CheckToken(String),
}

/// The first step of the v1 gate.  It never lets a request through without
/// a token, whether or not password login is enabled: a request without one
/// is refused `401`; a token on an administrator path must belong to an
/// administrator's session; any other token must be a session or a device
/// token.
pub fn v1_gate(token: Option<String>, path: &str) -> (g: V1Gate)
    ensures
        match token {
            None => g matches V1Gate::Refuse(r) && r.status == 401
                && r.message@ == "missing authorization header"@,
            Some(t) => if spec_is_admin_route(path@) {
                g matches V1Gate::CheckAdmin(k) && k@ == t@
            } else {
                g matches V1Gate::CheckToken(k) && k@ == t@
            },
        },
{
    match token {
        None => V1Gate::Refuse(
            Refusal { status: 401, message: String::from_str("missing authorization header") },
        ),
        Some(t) => if is_admin_route(path) {
            V1Gate::CheckAdmin(t)
        } else {
            V1Gate::CheckToken(t)
        },
    }
}

/// The v1 gate's answer on an administrator path.  `session_user` is the
/// user whose live session the token is, and `is_admin` the administrator
/// flag read for that user (none when the user could not be read).  `None`
/// lets the request through.
pub fn admin_gate(session_user: Option<u128>, is_admin: Option<bool>) -> (r: Option<Refusal>)
    ensures
        session_user is None ==> (r matches Some(f) && f.status == 401
            && f.message@ == "administrator session required"@),
        session_user is Some && is_admin == Some(true) ==> r is None,
        session_user is Some && is_admin != Some(true) ==> (r matches Some(f) && f.status == 403
            && f.message@ == "administrator privileges required"@),
{
    match session_user {
        None => Some(
            Refusal { status: 401, message: String::from_str("administrator session required") },
        ),
        Some(_) => {
            let admin = match is_admin {
                Some(a) => a,
                None => false,
            };
            if admin {
                None
            } else {
                Some(
                    Refusal {
                        status: 403,
                        message: String::from_str("administrator privileges required"),
                    },
                )
            }
        },
    }
}

/// The v1 gate's answer on any other protected path: through when the
/// token is a live session or a valid device token, else `401`.
pub fn token_gate(session_valid: bool, device_valid: bool) -> (r: Option<Refusal>)
    ensures
        r is None <==> (session_valid || device_valid),
        r matches Some(f) ==> f.status == 401 && f.message@ == "invalid or expired token"@,
{
    if session_valid || device_valid {
        None
    } else {
        Some(Refusal { status: 401, message: String::from_str("invalid or expired token") })
    }
}

/// The first decision on a request to an unversioned `/api` route, made
/// from the token alone.
#[derive(Debug)]
pub enum SessionGate {
    /// Let the request through.
    Pass,
    /// Turn the request away.
    Refuse(Refusal),
    /// Check this token as a session.
    CheckSession(String),
}

/// The check on unversioned `/api` routes: open when password login is
/// disabled; otherwise a request needs a token, which must be a live
/// session.
pub fn session_gate(auth_enabled: bool, token: Option<String>) -> (g: SessionGate)
    ensures
        !auth_enabled ==> g is Pass,
        auth_enabled && token is None ==> (g matches SessionGate::Refuse(r) && r.status == 401
            && r.message@ == "missing authorization header"@),
        auth_enabled && token is Some ==> (g matches SessionGate::CheckSession(k) && k@
            == token->0@),
{
    if !auth_enabled {
        return SessionGate::Pass;
    }
    match token {
        None => SessionGate::Refuse(
            Refusal { status: 401, message: String::from_str("missing authorization header") },
        ),
        Some(t) => SessionGate::CheckSession(t),
    }
}

/// The answer to a request on an unversioned `/api` route once its token
/// was looked up as a login session: it passes (`None`) only on a live
/// session; otherwise it is refused `401` "invalid or expired token".  A
/// paired device's token is never consulted here.
pub fn session_outcome(session_valid: bool) -> (r: Option<Refusal>)
    ensures
        r is None <==> session_valid,
        r matches Some(f) ==> f.status == 401 && f.message@ == "invalid or expired token"@,
{
    if session_valid {
        None
    } else {
        Some(Refusal { status: 401, message: String::from_str("invalid or expired token") })
    }
}

/// The answer to a request on a plain `/api` route, given whether login is
/// on, its token and whether that token is a live session: `None` lets it
/// through, `Some(m)` refuses it `401` with message `m`.
pub open spec fn unversioned_access(auth_enabled: bool, token: Option<Seq<char>>, session_valid: bool) -> Option<
    Seq<char>,
> {
    if !auth_enabled {
        None
    } else if token is None {
        Some("missing authorization header"@)
    } else if session_valid {
        None
    } else {
        Some("invalid or expired token"@)
    }
}

/// The check on a plain `/api` route: `session_gate` on the token, then,
/// for a token, `session_outcome` of its session lookup (`session_valid`,
/// which is not consulted otherwise).  `None` lets the request through.
pub fn session_access(auth_enabled: bool, token: Option<String>, session_valid: bool) -> (r: Option<
    Refusal,
>)
    ensures
        match r {
            None => unversioned_access(
                auth_enabled,
                match token {
                    Some(t) => Some(t@),
                    None => None,
                },
                session_valid,
            ) is None,
            Some(f) => f.status == 401 && unversioned_access(
                auth_enabled,
                match token {
                    Some(t) => Some(t@),
                    None => None,
                },
                session_valid,
            ) == Some(f.message@),
        },
{
    match session_gate(auth_enabled, token) {
        SessionGate::Pass => None,
        SessionGate::Refuse(f) => Some(f),
        SessionGate::CheckSession(_) => session_outcome(session_valid),
    }
}

/// On unversioned `/api` routes with password login enabled, a request
/// passes exactly when it carries a token that is a live login session;
/// with login disabled every request passes.
pub proof fn law_only_live_sessions_pass(auth_enabled: bool, token: Option<Seq<char>>, session_valid: bool)
    ensures
        unversioned_access(auth_enabled, token, session_valid) is None <==> (!auth_enabled || (token is Some
            && session_valid)),
{
}


/// Whether instant `a` comes after instant `b`, each given as whole
/// seconds since the epoch and nanoseconds within the second.
pub open spec fn later(a: (i64, u32), b: (i64, u32)) -> bool {
    a.0 > b.0 || (a.0 == b.0 && a.1 > b.1)
}

/// Whether a session kept in the database is still live at `now`: its
/// stored expiry reads as an RFC 3339 time and lies after `now`.  A stored
/// expiry that does not read counts as expired.
pub fn stored_session_live(expires_at: &str, now: (i64, u32)) -> (r: bool)
    ensures
        r == (match rfc3339_parsed(expires_at@) {
            Some(exp) => later(exp, now),
            None => false,
        }),
{
    match parse_rfc3339(expires_at) {
        Some(exp) => exp.0 > now.0 || (exp.0 == now.0 && exp.1 > now.1),
        None => false,
    }
}

/// The administrator configured at start-up: with password login enabled,
/// the configured user name and password, trimmed, where the name is not
/// blank and the password takes at least 8 bytes.
pub fn admin_credentials(
    auth_enabled: bool,
    username: &Option<String>,
    password: &Option<String>,
) -> (r: Option<(String, String)>)
    ensures
        r is Some <==> (auth_enabled && (username matches Some(u) && trim(u@).len() > 0) && (
        password matches Some(p) && utf8_len(trim(p@)) >= 8)),
        r matches Some((u, p)) ==> u@ == trim(username->0@) && p@ == trim(password->0@),
{
    if !auth_enabled {
        return None;
    }
    let u = match username {
        Some(u) => trimmed(u.as_str()),
        None => {
            return None;
        },
    };
    if u.as_str().unicode_len() == 0 {
        return None;
    }
    let p = match password {
        Some(p) => p,
        None => {
            return None;
        },
    };
    if !password_long_enough(p.as_str()) {
        return None;
    }
    Some((u, trimmed(p.as_str())))
}

/// What start-up does for the configured administrator.
#[derive(Debug, Clone, Copy, PartialEq, Eq, Structural)]
pub enum AdminSetup {
    /// The user exists and is an administrator: nothing to do.
    Keep,
    /// The user exists but is not an administrator: promote it.
    Promote,
    /// No such user: create it, as an administrator.
    Create,
}

/// What start-up does for the configured administrator, given whether a
/// user of that name exists and whether it is an administrator.
pub fn admin_setup(existing_is_admin: Option<bool>) -> (r: AdminSetup)
    ensures
        r == (match existing_is_admin {
            Some(true) => AdminSetup::Keep,
            Some(false) => AdminSetup::Promote,
            None => AdminSetup::Create,
        }),
{
    match existing_is_admin {
        Some(true) => AdminSetup::Keep,
        Some(false) => AdminSetup::Promote,
        None => AdminSetup::Create,
    }
}

} // verus!
