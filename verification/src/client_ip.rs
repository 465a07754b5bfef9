//! Which address a request comes from: the TCP peer, or, behind a trusted
//! reverse proxy, the nearest untrusted hop that the proxies forwarded.
use vstd::prelude::*;
use vstd::string::StringExecFns;

use crate::text::{append_decimal, chars_of, decimal, string_of, trim, trim_chars};

verus! {

/// The value of an IP address.
#[derive(Debug, Clone, Copy, PartialEq, Eq, Structural)]
pub enum IpValue {
    V4(u8, u8, u8, u8),
    V6(u128),
}

/// An IP address: its value and its text.
#[derive(Debug)]
pub struct IpAddress {
    pub value: IpValue,
    pub text: String,
}

/// The dotted decimal text of an IPv4 address.
pub open spec fn ipv4_text(a: u8, b: u8, c: u8, d: u8) -> Seq<char> {
    decimal(a as nat) + "."@ + decimal(b as nat) + "."@ + decimal(c as nat) + "."@ + decimal(
        d as nat,
    )
}

impl IpAddress {
    /// The IPv4 address `a.b.c.d`.
    pub fn v4(a: u8, b: u8, c: u8, d: u8) -> (r: IpAddress)
        ensures
            r.value == IpValue::V4(a, b, c, d),
            r.text@ == ipv4_text(a, b, c, d),
    {
        let mut t = String::new();
        append_decimal(&mut t, a as u64);
        t.append(".");
        append_decimal(&mut t, b as u64);
        t.append(".");
        append_decimal(&mut t, c as u64);
        t.append(".");
        append_decimal(&mut t, d as u64);
        proof {
            assert(t@ =~= ipv4_text(a, b, c, d));
        }
        IpAddress { value: IpValue::V4(a, b, c, d), text: t }
    }

    /// The IPv6 address with value `value` and text `text`.
    pub fn v6(value: u128, text: String) -> (r: IpAddress)
        ensures
            r.value == IpValue::V6(value),
            r.text@ == text@,
    {
        IpAddress { value: IpValue::V6(value), text }
    }

    /// A copy of the address.
    pub fn copy(&self) -> (r: IpAddress)
        ensures
            r.value == self.value,
            r.text@ == self.text@,
    {
        IpAddress { value: self.value, text: self.text.clone() }
    }
}

/// Which peers the server trusts to forward client addresses.
#[derive(Debug)]
pub struct ProxyPolicy {
    pub trust_proxy: bool,
    pub trusted_proxies: Vec<IpValue>,
}

impl ProxyPolicy {
    /// A peer is trusted when proxies are trusted at all and it is listed.
    pub open spec fn trusts(&self, ip: IpValue) -> bool {
        self.trust_proxy && self.trusted_proxies@.contains(ip)
    }

    /// Whether `ip` is a trusted proxy.
    pub fn is_trusted_proxy(&self, ip: IpValue) -> (r: bool)
        ensures
            r == self.trusts(ip),
    {
        if !self.trust_proxy {
            return false;
        }
        let mut i: usize = 0;
        while i < self.trusted_proxies.len()
            invariant
                self.trust_proxy,
                i <= self.trusted_proxies@.len(),
                forall|j: int| 0 <= j < i ==> self.trusted_proxies@[j] != ip,
            decreases self.trusted_proxies.len() - i,
        {
            if self.trusted_proxies[i] == ip {
                proof {
                    assert(self.trusted_proxies@[i as int] == ip);
                    assert(self.trusted_proxies@.contains(ip));
                }
                return true;
            }
            i = i + 1;
        }
        false
    }
}

/// The pieces of `s` between the separators `sep`, as `str::split` gives
/// them (empty pieces included).
pub open spec fn split_on(s: Seq<char>, sep: char) -> Seq<Seq<char>>
    decreases s.len(),
{
    if s.len() == 0 {
        seq![Seq::empty()]
    } else {
        let rest = split_on(s.drop_last(), sep);
        if s.last() == sep {
            rest.push(Seq::empty())
        } else {
            rest.update(rest.len() - 1, rest.last().push(s.last()))
        }
    }
}

proof fn lemma_split_on_nonempty(s: Seq<char>, sep: char)
    ensures
        split_on(s, sep).len() >= 1,
    decreases s.len(),
{
    if s.len() > 0 {
        lemma_split_on_nonempty(s.drop_last(), sep);
    }
}

/// The hops of an `X-Forwarded-For` value, trimmed, nearest first.
pub open spec fn forwarded_hop_texts(header: Seq<char>) -> Seq<Seq<char>> {
    split_on(header, ',').map_values(|t: Seq<char>| trim(t)).reverse()
}

/// The hops of an `X-Forwarded-For` value, trimmed, from the nearest proxy
/// hop to the furthest.
pub fn forwarded_hops(header: &str) -> (r: Vec<String>)
    ensures
        r@.map_values(|t: String| t@) == forwarded_hop_texts(header@),
{
    let cs = chars_of(header);
    let mut pieces: Vec<Vec<char>> = Vec::new();
    let mut cur: Vec<char> = Vec::new();
    let mut i: usize = 0;
    while i < cs.len()
        invariant
            cs@ == header@,
            i <= cs@.len(),
            pieces@.map_values(|p: Vec<char>| p@).push(cur@) == split_on(cs@.take(i as int), ','),
        decreases cs.len() - i,
    {
        let c = cs[i];
        proof {
            let pre = cs@.take(i as int);
            let nxt = cs@.take(i as int + 1);
            assert(nxt.drop_last() =~= pre);
            assert(nxt.last() == c);
            lemma_split_on_nonempty(pre, ',');
        }
        if c == ',' {
            let ghost old_pieces = pieces@.map_values(|p: Vec<char>| p@);
            let ghost old_cur = cur@;
            let done = cur;
            pieces.push(done);
            cur = Vec::new();
            proof {
                assert(pieces@.map_values(|p: Vec<char>| p@) =~= old_pieces.push(old_cur));
                assert(pieces@.map_values(|p: Vec<char>| p@).push(cur@) =~= old_pieces.push(
                    old_cur,
                ).push(Seq::empty()));
            }
        } else {
            let ghost old_pieces = pieces@.map_values(|p: Vec<char>| p@);
            let ghost old_cur = cur@;
            cur.push(c);
            proof {
                assert(pieces@.map_values(|p: Vec<char>| p@).push(cur@) =~= old_pieces.push(
                    old_cur,
                ).update(old_pieces.len() as int, old_cur.push(c)));
            }
        }
        i = i + 1;
    }
    proof {
        assert(cs@.take(cs@.len() as int) =~= cs@);
    }
    pieces.push(cur);
    let ghost all = pieces@.map_values(|p: Vec<char>| p@);
    assert(all == split_on(header@, ','));
    let mut r: Vec<String> = Vec::new();
    let mut k: usize = pieces.len();
    while k > 0
        invariant
            k <= pieces@.len(),
            all == pieces@.map_values(|p: Vec<char>| p@),
            all == split_on(header@, ','),
            r@.map_values(|t: String| t@) =~= all.map_values(|t: Seq<char>| trim(t)).reverse().take(
                (pieces@.len() - k) as int,
            ),
        decreases k,
    {
        k = k - 1;
        let t = trim_chars(pieces[k].as_slice());
        let s = string_of(t.as_slice());
        proof {
            let full = all.map_values(|t: Seq<char>| trim(t)).reverse();
            assert(full[(pieces@.len() - k - 1) as int] == trim(all[k as int]));
            assert(all[k as int] == pieces@[k as int]@);
        }
        let ghost before = r@.map_values(|t: String| t@);
        r.push(s);
        proof {
            let full = all.map_values(|t: Seq<char>| trim(t)).reverse();
            assert(r@.map_values(|t: String| t@) =~= before.push(s@));
            assert(full.take((pieces@.len() - k) as int) =~= full.take(
                (pieces@.len() - k - 1) as int,
            ).push(full[(pieces@.len() - k - 1) as int]));
        }
    }
    proof {
        let full = all.map_values(|t: Seq<char>| trim(t)).reverse();
        assert(full.take(pieces@.len() as int) =~= full);
    }
    r
}

/// The nearest hop that parsed and is no trusted proxy.
pub open spec fn first_untrusted(hops: Seq<Option<IpValue>>, policy: ProxyPolicy) -> Option<IpValue>
    decreases hops.len(),
{
    if hops.len() == 0 {
        None
    } else {
        match hops[0] {
            Some(ip) => if !policy.trusts(ip) {
                Some(ip)
            } else {
                first_untrusted(hops.drop_first(), policy)
            },
            None => first_untrusted(hops.drop_first(), policy),
        }
    }
}

/// The client address of a request.  `hops` are the parsed hops of the
/// `X-Forwarded-For` header, nearest first (`None` for a hop that is no IP
/// address), and `real_ip` the parsed, trimmed `X-Real-IP` header.
pub open spec fn spec_resolve_client_ip(
    peer: Option<IpValue>,
    hops: Option<Seq<Option<IpValue>>>,
    real_ip: Option<IpValue>,
    policy: ProxyPolicy,
) -> Option<IpValue> {
    match peer {
        None => None,
        Some(p) => if !policy.trusts(p) {
            Some(p)
        } else {
            let forwarded = match hops {
                Some(h) => first_untrusted(h, policy),
                None => None,
            };
            match forwarded {
                Some(ip) => Some(ip),
                None => real_ip,
            }
        },
    }
}

/// The values of a list of optional addresses.
pub open spec fn hop_values(hops: Seq<Option<IpAddress>>) -> Seq<Option<IpValue>> {
    hops.map_values(|h: Option<IpAddress>| match h {
        Some(a) => Some(a.value),
        None => None,
    })
}

/// Whether `o` holds an address with the value and text of `a`.
pub open spec fn holds_address(o: Option<IpAddress>, a: IpAddress) -> bool {
    match o {
        Some(x) => x.value == a.value && x.text@ == a.text@,
        None => false,
    }
}

/// Whether `a` is one of the addresses handed in, text included.
pub open spec fn address_from_inputs(
    a: IpAddress,
    peer: Option<IpAddress>,
    hops: Option<Vec<Option<IpAddress>>>,
    real_ip: Option<IpAddress>,
) -> bool {
    ||| holds_address(peer, a)
    ||| (match hops {
        Some(h) => exists|k: int| 0 <= k < h@.len() && #[trigger] holds_address(h@[k], a),
        None => false,
    })
    ||| holds_address(real_ip, a)
}

/// Resolves the client address of a request: an untrusted peer is the
/// client; behind a trusted proxy the nearest untrusted forwarded hop is,
/// else the `X-Real-IP` address; when neither is there, no address is
/// trusted.
pub fn resolve_client_ip(
    peer: Option<IpAddress>,
    hops: Option<Vec<Option<IpAddress>>>,
    real_ip: Option<IpAddress>,
    policy: &ProxyPolicy,
) -> (r: Option<IpAddress>)
    ensures
        (match r {
            Some(a) => Some(a.value),
            None => None,
        }) == spec_resolve_client_ip(
            match peer {
                Some(p) => Some(p.value),
                None => None,
            },
            match hops {
                Some(h) => Some(hop_values(h@)),
                None => None,
            },
            match real_ip {
                Some(a) => Some(a.value),
                None => None,
            },
            *policy,
        ),
        r matches Some(a) ==> address_from_inputs(a, peer, hops, real_ip),
{
    let ghost peer_g = peer;
    let ghost hops_g = hops;
    let ghost real_g = real_ip;
    let p = match peer {
        Some(p) => p,
        None => {
            return None;
        },
    };
    if !policy.is_trusted_proxy(p.value) {
        return Some(p);
    }
    if let Some(h) = hops {
        let ghost hv = hop_values(h@);
        let mut i: usize = 0;
        proof {
            assert(hv.skip(0) =~= hv);
        }
        while i < h.len()
            invariant
                i <= h@.len(),
                hops_g == Some(h),
                peer_g == Some(p),
                hops_g == hops,
                peer_g == peer,
                real_g == real_ip,
                hv == hop_values(h@),
                policy.trusts(p.value),
                first_untrusted(hv, *policy) == first_untrusted(hv.skip(i as int), *policy),
            decreases h.len() - i,
        {
            proof {
                assert(hv.skip(i as int).drop_first() =~= hv.skip(i as int + 1));
                assert(hv.skip(i as int)[0] == hv[i as int]);
            }
            match &h[i] {
                Some(ip) => {
                    proof {
                        assert(hv[i as int] == Some(ip.value));
                    }
                    if !policy.is_trusted_proxy(ip.value) {
                        let found = ip.copy();
                        proof {
                            assert(holds_address(h@[i as int], found));
                            assert(hv.skip(i as int).len() > 0);
                            assert(first_untrusted(hv.skip(i as int), *policy) == Some(ip.value));
                            assert(hops_g == Some(h));
                            assert(exists|k: int| 0 <= k < h@.len() && #[trigger] holds_address(h@[k], found));
                            assert(address_from_inputs(found, peer_g, hops_g, real_g));
                        }
                        return Some(found);
                    }
                },
                None => {
                    proof {
                        assert(hv[i as int] == None::<IpValue>);
                    }
                },
            }
            i = i + 1;
        }
        proof {
            assert(hv.skip(i as int) =~= Seq::<Option<IpValue>>::empty());
        }
    }
    real_ip
}

/// The text of the client address, or `127.0.0.1` where none was resolved.
pub fn client_ip_text(resolved: &Option<IpAddress>) -> (r: String)
    ensures
        r@ == (match resolved {
            Some(a) => a.text@,
            None => "127.0.0.1"@,
        }),
{
    match resolved {
        Some(a) => a.text.clone(),
        None => String::from_str("127.0.0.1"),
    }
}

/// The trimmed characters of a header value, ready to be parsed as an
/// address.
pub fn trimmed_header(value: &str) -> (r: String)
    ensures
        r@ == trim(value@),
{
    let cs = chars_of(value);
    let t = trim_chars(cs.as_slice());
    string_of(t.as_slice())
}


/// What `first_untrusted` finds is an untrusted hop of the list.
pub proof fn lemma_first_untrusted_is_untrusted(hops: Seq<Option<IpValue>>, policy: ProxyPolicy)
    ensures
        match first_untrusted(hops, policy) {
            Some(ip) => !policy.trusts(ip) && hops.contains(Some(ip)),
            None => true,
        },
    decreases hops.len(),
{
    if hops.len() > 0 {
        lemma_first_untrusted_is_untrusted(hops.drop_first(), policy);
        if let Some(ip) = first_untrusted(hops.drop_first(), policy) {
            if hops.drop_first().contains(Some(ip)) {
                let k = choose|k: int| 0 <= k < hops.drop_first().len() && hops.drop_first()[k] == Some(ip);
                assert(hops[k + 1] == Some(ip));
            }
        }
        if let Some(ip) = hops[0] {
            assert(hops[0] == Some(ip));
        }
    }
}

/// Behind a trusted proxy the client address fails closed: it is the
/// nearest untrusted hop that the proxies forwarded, else `X-Real-IP`, else
/// none, and never the proxy's own address by default.  From an untrusted
/// peer the peer's address is taken and the headers are ignored.
pub proof fn law_trusted_proxy_fails_closed(
    peer: IpValue,
    hops: Option<Seq<Option<IpValue>>>,
    real_ip: Option<IpValue>,
    policy: ProxyPolicy,
)
    ensures
        !policy.trusts(peer) ==> spec_resolve_client_ip(Some(peer), hops, real_ip, policy) == Some(peer),
        policy.trusts(peer) && hops is None && real_ip is None ==> spec_resolve_client_ip(
            Some(peer),
            hops,
            real_ip,
            policy,
        ) is None,
        policy.trusts(peer) ==> match hops {
            Some(h) => match first_untrusted(h, policy) {
                Some(ip) => spec_resolve_client_ip(Some(peer), hops, real_ip, policy) == Some(ip)
                    && !policy.trusts(ip) && h.contains(Some(ip)),
                None => spec_resolve_client_ip(Some(peer), hops, real_ip, policy) == real_ip,
            },
            None => spec_resolve_client_ip(Some(peer), hops, real_ip, policy) == real_ip,
        },
{
    if let Some(h) = hops {
        lemma_first_untrusted_is_untrusted(h, policy);
    }
}
} // verus!
