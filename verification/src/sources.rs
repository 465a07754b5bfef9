//! Stream sources and podcasts: the checks on a new source, the outcome of
//! reading its feed, episode progress, and the decisions of the proxy that
//! follows redirects hop by hop.
use vstd::prelude::*;
use vstd::string::StringExecFns;

use crate::text::{append_decimal, contains_str, contains_text, decimal, trim, trimmed};

verus! {

/// An error answer of the source endpoints: HTTP status, code, message.
#[derive(Debug)]
pub struct SourceError {
    pub status: u16,
    pub code: String,
    pub message: String,
}

/// A request to add a stream source.
#[derive(Debug)]
pub struct AddSourceBody {
    pub url: String,
}

impl AddSourceBody {
    /// Refuses a blank URL with `400 VALIDATION`.
    pub fn check(&self) -> (r: Result<(), SourceError>)
        ensures
            r is Ok <==> trim(self.url@).len() > 0,
            r matches Err(e) ==> e.status == 400 && e.code@ == "VALIDATION"@
                && e.message@ == "url is required"@,
    {
        let t = trimmed(self.url.as_str());
        if t.as_str().unicode_len() == 0 {
            Err(SourceError {
                status: 400,
                code: String::from_str("VALIDATION"),
                message: String::from_str("url is required"),
            })
        } else {
            Ok(())
        }
    }
}

/// What became of reading a source's podcast feed.
#[derive(Debug, Clone, Copy, PartialEq, Eq, Structural)]
pub enum FeedRead {
    /// The source is not a podcast; no feed was read.
    NotPodcast,
    /// The feed could not be fetched.
    FetchFailed,
    /// The feed was fetched but its body could not be read.
    ReadFailed,
    /// The feed was read and held this many episodes.
    Parsed(usize),
}

/// The text of the `feed_status` of a feed read.
pub open spec fn feed_status_text(f: FeedRead) -> Seq<char> {
    match f {
        FeedRead::NotPodcast => "not_applicable"@,
        FeedRead::FetchFailed => "fetch_failed"@,
        FeedRead::ReadFailed => "read_failed"@,
        FeedRead::Parsed(n) => if n == 0 { "empty_feed"@ } else { "success"@ },
    }
}

/// The `feed_status` reported for a feed read.
pub fn feed_status(f: FeedRead) -> (s: &'static str)
    ensures
        s@ == feed_status_text(f),
{
    match f {
        FeedRead::NotPodcast => "not_applicable",
        FeedRead::FetchFailed => "fetch_failed",
        FeedRead::ReadFailed => "read_failed",
        FeedRead::Parsed(n) => if n == 0 {
            "empty_feed"
        } else {
            "success"
        },
    }
}

/// How many of the given outcomes are `want`.
pub open spec fn count_outcomes(s: Seq<bool>, want: bool) -> nat
    decreases s.len(),
{
    if s.len() == 0 {
        0
    } else {
        count_outcomes(s.drop_last(), want) + if s.last() == want { 1nat } else { 0nat }
    }
}

proof fn lemma_count_split(s: Seq<bool>)
    ensures
        count_outcomes(s, true) + count_outcomes(s, false) == s.len(),
    decreases s.len(),
{
    if s.len() > 0 {
        lemma_count_split(s.drop_last());
    }
}

/// The episodes stored and the episodes that failed, from the outcome of
/// each episode's write (`true` for stored).  Every episode is counted
/// once.
pub fn tally_episodes(writes: &Vec<bool>) -> (r: (usize, usize))
    ensures
        r.0 == count_outcomes(writes@, true),
        r.1 == count_outcomes(writes@, false),
        r.0 + r.1 == writes.len(),
{
    let mut imported: usize = 0;
    let mut failed: usize = 0;
    let mut i: usize = 0;
    while i < writes.len()
        invariant
            i <= writes.len(),
            imported == count_outcomes(writes@.take(i as int), true),
            failed == count_outcomes(writes@.take(i as int), false),
            imported + failed == i,
        decreases writes.len() - i,
    {
        proof {
            assert(writes@.take(i as int + 1).drop_last() =~= writes@.take(i as int));
            lemma_count_split(writes@.take(i as int));
        }
        if writes[i] {
            imported = imported + 1;
        } else {
            failed = failed + 1;
        }
        i = i + 1;
    }
    proof {
        assert(writes@.take(i as int) =~= writes@);
    }
    (imported, failed)
}

/// A report of listening progress on an episode.
#[derive(Debug)]
pub struct UpdateEpisodeBody {
    pub position_ms: Option<u64>,
    pub played: Option<bool>,
}

impl UpdateEpisodeBody {
    /// The position and played flag stored: what the request gives, else
    /// the start and not played.
    pub fn progress(&self) -> (r: (u64, bool))
        ensures
            r.0 == (match self.position_ms { Some(p) => p, None => 0 }),
            r.1 == (match self.played { Some(p) => p, None => false }),
    {
        let p: u64 = match self.position_ms {
            Some(p) => p,
            None => 0,
        };
        let d: bool = match self.played {
            Some(d) => d,
            None => false,
        };
        (p, d)
    }
}

// ── The proxy ─────────────────────────────────────────────────────

/// How many hops the proxy makes at most, redirects included.
pub const MAX_PROXY_HOPS: usize = 5;

/// What one hop of the proxy got back.
#[derive(Debug)]
pub enum HopResponse {
    /// A redirect (3xx), with its `Location` header if it has one.
    Redirect { location: Option<String> },
    /// A success (2xx), with its `Content-Type` header (empty when absent).
    Success { content_type: String },
    /// Any other status, with the reason phrase that HTTP gives it, where
    /// the status has one (`StatusCode::canonical_reason`).
    Other { status: u16, reason: Option<String> },
}

/// What the proxy does next.
#[derive(Debug)]
pub enum ProxyAction {
    /// Resolve `location` against the current URL and hand the outcome to
    /// `redirect_step`.
    Resolve { location: String },
    /// Make the next hop to this URL.
    Follow { url: String },
    /// Check this URL before any request: it must name a host whose
    /// addresses are public; report the outcome to `ProxyLoop::checked`.
    Check { url: String },
    /// Request this URL from the checked address, without following
    /// redirects; report the outcome to `ProxyLoop::fetched`.
    Fetch { url: String },
    /// Stream the body to the client, with this content type if any.
    Stream { content_type: Option<String> },
    /// Answer with this error.
    Fail(SourceError),
}

/// Whether a content type is a web page, which the proxy never passes on.
pub open spec fn is_html(content_type: Seq<char>) -> bool {
    contains_text(content_type, "text/html"@) || contains_text(content_type, "application/xhtml"@)
}

/// How a status is written: its number, a space and its reason phrase, or
/// `<unknown status code>` where it has none.
pub open spec fn status_text(status: u16, reason: Option<Seq<char>>) -> Seq<char> {
    decimal(status as nat) + " "@ + match reason {
        Some(r) => r,
        None => "<unknown status code>"@,
    }
}

/// The message when the upstream answers neither a redirect nor a success.
pub open spec fn upstream_status_message(status: u16, reason: Option<Seq<char>>, hop: usize) -> Seq<
    char,
> {
    "upstream returned status "@ + status_text(status, reason) + " at hop "@ + decimal(hop as nat)
}

/// What the proxy decides after hop number `hop` got `resp`.
pub open spec fn proxy_decision(hop: usize, resp: HopResponse, a: ProxyAction) -> bool {
        match resp {
            HopResponse::Redirect { location: None } => a matches ProxyAction::Fail(e)
                && e.status == 502 && e.code@ == "REDIRECT_ERROR"@
                && e.message@ == "redirect response has no Location header"@,
            HopResponse::Redirect { location: Some(l) } => a matches ProxyAction::Resolve { location }
                && location@ == l@,
            HopResponse::Success { content_type } => if is_html(content_type@) {
                a matches ProxyAction::Fail(e) && e.status == 502 && e.code@ == "PROXY_BLOCKED"@
                    && e.message@ == "stream returned HTML, possible SSRF redirect"@
            } else if content_type@.len() == 0 {
                a matches ProxyAction::Stream { content_type: None }
            } else {
                a matches ProxyAction::Stream { content_type: Some(c) } && c@ == content_type@
            },
            HopResponse::Other { status, reason } => a matches ProxyAction::Fail(e) && e.status == 502
                && e.code@ == "PROXY_ERROR"@ && e.message@ == upstream_status_message(
                status,
                match reason {
                    Some(r) => Some(r@),
                    None => None,
                },
                hop,
            ),
        }
}

/// The proxy's decision after hop number `hop` (counted from 0) got
/// `resp`.  A redirect's `Location` is first resolved (see
/// `redirect_step`); a success is streamed unless it is a web page;
/// anything else is a `502`.
pub fn next_proxy_action(hop: usize, resp: HopResponse) -> (a: ProxyAction)
    requires
        hop < MAX_PROXY_HOPS,
    ensures
        proxy_decision(hop, resp, a),
{
    match resp {
        HopResponse::Redirect { location: None } => ProxyAction::Fail(
            SourceError {
                status: 502,
                code: String::from_str("REDIRECT_ERROR"),
                message: String::from_str("redirect response has no Location header"),
            },
        ),
        HopResponse::Redirect { location: Some(l) } => ProxyAction::Resolve { location: l },
        HopResponse::Success { content_type } => {
            if contains_str(content_type.as_str(), "text/html") || contains_str(
                content_type.as_str(),
                "application/xhtml",
            ) {
                ProxyAction::Fail(
                    SourceError {
                        status: 502,
                        code: String::from_str("PROXY_BLOCKED"),
                        message: String::from_str("stream returned HTML, possible SSRF redirect"),
                    },
                )
            } else if content_type.as_str().unicode_len() == 0 {
                ProxyAction::Stream { content_type: None }
            } else {
                ProxyAction::Stream { content_type: Some(content_type) }
            }
        },
        HopResponse::Other { status, reason } => {
            let ghost why: Option<Seq<char>> = match &reason {
                Some(r) => Some(r@),
                None => None,
            };
            let mut m = String::from_str("upstream returned status ");
            append_decimal(&mut m, status as u64);
            m.append(" ");
            match &reason {
                Some(r) => m.append(r.as_str()),
                None => m.append("<unknown status code>"),
            }
            m.append(" at hop ");
            append_decimal(&mut m, hop as u64);
            proof {
                assert(m@ =~= upstream_status_message(status, why, hop));
            }
            ProxyAction::Fail(
                SourceError { status: 502, code: String::from_str("PROXY_ERROR"), message: m },
            )
        },
    }
}

/// The proxy's decision after hop number `hop` redirected and its
/// `Location` was resolved against the current URL (`Ok` with the next URL,
/// or `Err` with the resolver's message).  A Location that does not resolve
/// is a `502` at every hop; a resolved one is followed while fewer than
/// `MAX_PROXY_HOPS` hops have been made, and after the last hop the proxy
/// gives up.
pub fn redirect_step(hop: usize, resolved: Result<String, String>) -> (a: ProxyAction)
    requires
        hop < MAX_PROXY_HOPS,
    ensures
        match resolved {
            Err(m) => a matches ProxyAction::Fail(e) && e.status == 502 && e.code@
                == "REDIRECT_ERROR"@ && e.message@ == "invalid Location: "@ + m@,
            Ok(u) => if hop + 1 < MAX_PROXY_HOPS {
                a matches ProxyAction::Follow { url } && url@ == u@
            } else {
                a matches ProxyAction::Fail(e) && e.status == 502 && e.code@ == "TOO_MANY_REDIRECTS"@
                    && e.message@ == "exceeded 5 redirect hops"@
            },
        },
{
    match resolved {
        Err(m) => {
            let mut msg = String::from_str("invalid Location: ");
            msg.append(m.as_str());
            ProxyAction::Fail(
                SourceError { status: 502, code: String::from_str("REDIRECT_ERROR"), message: msg },
            )
        },
        Ok(u) => {
            if hop + 1 < MAX_PROXY_HOPS {
                ProxyAction::Follow { url: u }
            } else {
                ProxyAction::Fail(
                    SourceError {
                        status: 502,
                        code: String::from_str("TOO_MANY_REDIRECTS"),
                        message: String::from_str("exceeded 5 redirect hops"),
                    },
                )
            }
        },
    }
}

/// The error when a hop's URL is refused before any request is made (a
/// private or reserved address, no host, no address).
pub fn blocked_hop(hop: usize, reason: &str) -> (e: SourceError)
    ensures
        e.status == 400,
        e.code@ == "SSRF_BLOCKED"@,
        e.message@ == "hop "@ + decimal(hop as nat) + ": "@ + reason@,
{
    let mut m = String::from_str("hop ");
    append_decimal(&mut m, hop as u64);
    m.append(": ");
    m.append(reason);
    SourceError { status: 400, code: String::from_str("SSRF_BLOCKED"), message: m }
}


/// The outcome of checking a hop's URL.
#[derive(Debug)]
pub enum HopCheck {
    /// The URL was refused, with the reason (a private or reserved address,
    /// a bad scheme, a failed lookup).
    Refused(String),
    /// The URL names no host.
    NoHost,
    /// The host's lookup gave no address.
    NoAddress,
    /// The URL may be requested.
    Ready,
}

/// The outcome of requesting a hop's URL.
#[derive(Debug)]
pub enum HopFetch {
    /// The HTTP client could not be built.
    ClientError(String),
    /// The request failed.
    SendError(String),
    /// The upstream answered.
    Answered(HopResponse),
}

/// The proxy as it follows a stream URL hop by hop: the hop it is at
/// (counted from 0) and that hop's URL.  Every hop's URL is checked before
/// it is requested, redirects are followed by hand, and at most
/// `MAX_PROXY_HOPS` hops are made.
#[derive(Debug)]
pub struct ProxyLoop {
    pub hop: usize,
    pub url: String,
}

impl ProxyLoop {
    /// Fewer than `MAX_PROXY_HOPS` hops have been made.
    pub open spec fn wf(&self) -> bool {
        self.hop < MAX_PROXY_HOPS
    }

    /// Starts at hop 0 with the source's URL, which is checked first.
    pub fn start(url: String) -> (r: (ProxyLoop, ProxyAction))
        ensures
            r.0.wf(),
            r.0.hop == 0,
            r.0.url@ == url@,
            r.1 matches ProxyAction::Check { url: u } && u@ == url@,
    {
        let u = url.clone();
        (ProxyLoop { hop: 0, url }, ProxyAction::Check { url: u })
    }

    /// After the hop's URL was checked: a refused URL is `400 SSRF_BLOCKED`,
    /// otherwise the URL is requested.
    pub fn checked(&self, check: HopCheck) -> (a: ProxyAction)
        requires
            self.wf(),
        ensures
            match check {
                HopCheck::Refused(reason) => a matches ProxyAction::Fail(e) && e.status == 400
                    && e.code@ == "SSRF_BLOCKED"@ && e.message@ == "hop "@ + decimal(self.hop as nat)
                    + ": "@ + reason@,
                HopCheck::NoHost => a matches ProxyAction::Fail(e) && e.status == 400 && e.code@
                    == "SSRF_BLOCKED"@ && e.message@ == "URL has no host"@,
                HopCheck::NoAddress => a matches ProxyAction::Fail(e) && e.status == 400 && e.code@
                    == "SSRF_BLOCKED"@ && e.message@ == "DNS resolution returned no addresses"@,
                HopCheck::Ready => a matches ProxyAction::Fetch { url } && url@ == self.url@,
            },
    {
        match check {
            HopCheck::Refused(reason) => ProxyAction::Fail(blocked_hop(self.hop, reason.as_str())),
            HopCheck::NoHost => ProxyAction::Fail(
                SourceError {
                    status: 400,
                    code: String::from_str("SSRF_BLOCKED"),
                    message: String::from_str("URL has no host"),
                },
            ),
            HopCheck::NoAddress => ProxyAction::Fail(
                SourceError {
                    status: 400,
                    code: String::from_str("SSRF_BLOCKED"),
                    message: String::from_str("DNS resolution returned no addresses"),
                },
            ),
            HopCheck::Ready => ProxyAction::Fetch { url: self.url.clone() },
        }
    }

    /// After the hop's URL was requested: a client that cannot be built is
    /// `500 CLIENT_ERROR`, a failed request `502 PROXY_ERROR`; an answer is
    /// decided by `next_proxy_action`.
    pub fn fetched(&self, fetch: HopFetch) -> (a: ProxyAction)
        requires
            self.wf(),
        ensures
            match fetch {
                HopFetch::ClientError(m) => a matches ProxyAction::Fail(e) && e.status == 500
                    && e.code@ == "CLIENT_ERROR"@ && e.message@ == m@,
                HopFetch::SendError(m) => a matches ProxyAction::Fail(e) && e.status == 502 && e.code@
                    == "PROXY_ERROR"@ && e.message@ == "hop "@ + decimal(self.hop as nat) + ": "@ + m@,
                HopFetch::Answered(resp) => proxy_decision(self.hop, resp, a),
            },
    {
        match fetch {
            HopFetch::ClientError(m) => ProxyAction::Fail(
                SourceError { status: 500, code: String::from_str("CLIENT_ERROR"), message: m },
            ),
            HopFetch::SendError(m) => {
                let mut msg = String::from_str("hop ");
                append_decimal(&mut msg, self.hop as u64);
                msg.append(": ");
                msg.append(m.as_str());
                ProxyAction::Fail(
                    SourceError { status: 502, code: String::from_str("PROXY_ERROR"), message: msg },
                )
            },
            HopFetch::Answered(resp) => next_proxy_action(self.hop, resp),
        }
    }

    /// After a redirect's `Location` was resolved against the hop's URL: the
    /// outcome is decided by `redirect_step`; a followed redirect moves to
    /// the next hop, whose URL is checked first.
    pub fn resolved(&mut self, resolved: Result<String, String>) -> (a: ProxyAction)
        requires
            old(self).wf(),
        ensures
            final(self).wf(),
            match resolved {
                Err(m) => a matches ProxyAction::Fail(e) && e.status == 502 && e.code@
                    == "REDIRECT_ERROR"@ && e.message@ == "invalid Location: "@ + m@ && final(self).hop
                    == old(self).hop,
                Ok(u) => if old(self).hop + 1 < MAX_PROXY_HOPS {
                    a matches ProxyAction::Check { url } && url@ == u@ && final(self).hop == old(self).hop
                        + 1 && final(self).url@ == u@
                } else {
                    a matches ProxyAction::Fail(e) && e.status == 502 && e.code@
                        == "TOO_MANY_REDIRECTS"@ && e.message@ == "exceeded 5 redirect hops"@
                        && final(self).hop == old(self).hop
                },
            },
    {
        match redirect_step(self.hop, resolved) {
            ProxyAction::Follow { url } => {
                self.hop = self.hop + 1;
                self.url = url.clone();
                ProxyAction::Check { url }
            },
            other => other,
        }
    }
}
} // verus!
