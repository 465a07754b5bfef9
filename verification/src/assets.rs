//! The web client's assets: the version tag that busts caches, the service
//! worker that caches them, and the index page with the tag filled in.
use vstd::prelude::*;
use vstd::string::StringExecFns;

use crate::deps::{sha256, sha256_digest};
use crate::text::{chars_of, hex_lower, hex_string, push_char, trim, trim_chars, string_of};

verus! {

/// The bytes that the asset version hashes: the package version, then the
/// two style sheets and the script, in this order.
pub open spec fn asset_bytes(version: Seq<char>, styles: Seq<u8>, hero: Seq<u8>, app: Seq<u8>) -> Seq<u8> {
    vstd::utf8::encode_utf8(version) + styles + hero + app
}

/// The asset version: the package version, a hyphen and the first 12 hex
/// digits of the SHA-256 of the hashed bytes.
pub open spec fn spec_asset_version(version: Seq<char>, styles: Seq<u8>, hero: Seq<u8>, app: Seq<u8>) -> Seq<char> {
    version + "-"@ + hex_lower(sha256_digest(asset_bytes(version, styles, hero, app))).take(12)
}

fn append_bytes(v: &mut Vec<u8>, b: &[u8])
    ensures
        final(v)@ == old(v)@ + b@,
{
    let mut i: usize = 0;
    while i < b.len()
        invariant
            i <= b@.len(),
            v@ == old(v)@ + b@.take(i as int),
        decreases b.len() - i,
    {
        v.push(b[i]);
        proof {
            assert(b@.take(i as int + 1) =~= b@.take(i as int).push(b@[i as int]));
            assert(v@ =~= old(v)@ + b@.take(i as int + 1));
        }
        i = i + 1;
    }
    proof {
        assert(b@.take(b@.len() as int) =~= b@);
    }
}

/// The version tag of the web client's assets, from the package version and
/// the contents of `styles.css`, `hero-cat.css` and `app.js`.
pub fn asset_version(version: &str, styles: &[u8], hero: &[u8], app: &[u8]) -> (s: String)
    ensures
        s@ == spec_asset_version(version@, styles@, hero@, app@),
{
    let mut all: Vec<u8> = Vec::new();
    append_bytes(&mut all, version.as_bytes());
    append_bytes(&mut all, styles);
    append_bytes(&mut all, hero);
    append_bytes(&mut all, app);
    let d = sha256(all.as_slice());
    let hex = hex_string(d.as_slice());
    let hc = chars_of(hex.as_str());
    let mut s = String::from_str(version);
    s.append("-");
    let mut i: usize = 0;
    proof {
        assert(hex_lower(d@).len() == 64) by {
            lemma_hex_len(d@);
        }
    }
    while i < 12
        invariant
            hc@ == hex_lower(d@),
            hc@.len() == 64,
            i <= 12,
            s@ == version@ + "-"@ + hc@.take(i as int),
        decreases 12 - i,
    {
        push_char(&mut s, hc[i]);
        proof {
            assert(hc@.take(i as int + 1) =~= hc@.take(i as int).push(hc@[i as int]));
        }
        i = i + 1;
    }
    proof {
        assert(all@ =~= asset_bytes(version@, styles@, hero@, app@));
        assert(s@ =~= spec_asset_version(version@, styles@, hero@, app@));
    }
    s
}

proof fn lemma_hex_len(b: Seq<u8>)
    ensures
        hex_lower(b).len() == 2 * b.len(),
    decreases b.len(),
{
    if b.len() > 0 {
        lemma_hex_len(b.drop_last());
    }
}

/// The service worker text, split at the places where the asset version goes.
pub open spec fn sw_parts() -> Seq<Seq<char>> {
    seq![
        "const CACHE = 'michi-"@,
        "';\n\nself.addEventListener('install', function(e) {\n  self.skipWaiting();\n  e.waitUntil(\n    caches.open(CACHE).then(function(c) {\n      return c.addAll([\n        '/',\n        '/static/styles.css?v="@,
        "',\n        '/static/hero-cat.css?v="@,
        "',\n        '/static/app.js?v="@,
        "',\n        '/static/assets/michi-hero-cat.webp?v="@,
        "',\n        '/static/assets/michi-micro-server.svg',\n        '/static/assets/michi-micro-server-180.png',\n        '/static/assets/michi-micro-server-192.png',\n        '/static/assets/michi-micro-server-512.png'\n      ]);\n    })\n  );\n});\n\nself.addEventListener('activate', function(e) {\n  e.waitUntil(\n    caches.keys().then(function(keys) {\n      return Promise.all(\n        keys.filter(function(k) { return k !== CACHE; })\n            .map(function(k) { return caches.delete(k); })\n      );\n    }).then(function() {\n      return self.clients.claim();\n    })\n  );\n});\n\nself.addEventListener('fetch', function(e) {\n  var url = new URL(e.request.url);\n  if (url.pathname === '/' || url.pathname === '/index.html') {\n    e.respondWith(networkFirst(e.request));\n  } else if (url.pathname.startsWith('/api/')) {\n    e.respondWith(fetch(e.request));\n  } else {\n    e.respondWith(networkFirst(e.request));\n  }\n});\n\nfunction networkFirst(req) {\n  return fetch(req).then(function(resp) {\n    if (resp.ok && req.method === 'GET') {\n      var clone = resp.clone();\n      caches.open(CACHE).then(function(ca) {\n        ca.put(req, clone);\n      });\n    }\n    return resp;\n  }).catch(function() {\n    return caches.match(req);\n  });\n}\n"@,
    ]
}

fn sw_part(i: usize) -> (s: &'static str)
    requires
        i < 6,
    ensures
        s@ == sw_parts()[i as int],
{
    if i == 0 {
        "const CACHE = 'michi-"
    } else if i == 1 {
        "';\n\nself.addEventListener('install', function(e) {\n  self.skipWaiting();\n  e.waitUntil(\n    caches.open(CACHE).then(function(c) {\n      return c.addAll([\n        '/',\n        '/static/styles.css?v="
    } else if i == 2 {
        "',\n        '/static/hero-cat.css?v="
    } else if i == 3 {
        "',\n        '/static/app.js?v="
    } else if i == 4 {
        "',\n        '/static/assets/michi-hero-cat.webp?v="
    } else {
        "',\n        '/static/assets/michi-micro-server.svg',\n        '/static/assets/michi-micro-server-180.png',\n        '/static/assets/michi-micro-server-192.png',\n        '/static/assets/michi-micro-server-512.png'\n      ]);\n    })\n  );\n});\n\nself.addEventListener('activate', function(e) {\n  e.waitUntil(\n    caches.keys().then(function(keys) {\n      return Promise.all(\n        keys.filter(function(k) { return k !== CACHE; })\n            .map(function(k) { return caches.delete(k); })\n      );\n    }).then(function() {\n      return self.clients.claim();\n    })\n  );\n});\n\nself.addEventListener('fetch', function(e) {\n  var url = new URL(e.request.url);\n  if (url.pathname === '/' || url.pathname === '/index.html') {\n    e.respondWith(networkFirst(e.request));\n  } else if (url.pathname.startsWith('/api/')) {\n    e.respondWith(fetch(e.request));\n  } else {\n    e.respondWith(networkFirst(e.request));\n  }\n});\n\nfunction networkFirst(req) {\n  return fetch(req).then(function(resp) {\n    if (resp.ok && req.method === 'GET') {\n      var clone = resp.clone();\n      caches.open(CACHE).then(function(ca) {\n        ca.put(req, clone);\n      });\n    }\n    return resp;\n  }).catch(function() {\n    return caches.match(req);\n  });\n}\n"
    }
}

/// The service worker script for asset version `v`.
pub open spec fn sw_text(v: Seq<char>) -> Seq<char> {
    sw_parts()[0] + v + sw_parts()[1] + v + sw_parts()[2] + v + sw_parts()[3] + v + sw_parts()[4]
        + v + sw_parts()[5]
}

/// The service worker script, which caches the assets of version `v`.
pub fn sw_js_content(v: &str) -> (s: String)
    ensures
        s@ == sw_text(v@),
{
    let mut s = String::from_str(sw_part(0));
    let mut i: usize = 1;
    while i < 6
        invariant
            1 <= i <= 6,
            s@ == sw_prefix(v@, i as int),
        decreases 6 - i,
    {
        s.append(v);
        s.append(sw_part(i));
        i = i + 1;
    }
    proof {
        reveal_with_fuel(sw_prefix, 6);
        assert(sw_prefix(v@, 6) =~= sw_text(v@));
    }
    s
}

/// The first `i` parts of the service worker with the version between them.
pub open spec fn sw_prefix(v: Seq<char>, i: int) -> Seq<char>
    decreases i,
{
    if i <= 1 {
        sw_parts()[0]
    } else {
        sw_prefix(v, i - 1) + v + sw_parts()[i - 1]
    }
}

/// `s` with every occurrence of the non-empty `pat`, left to right, replaced
/// by `rep` (`str::replace`).
pub open spec fn replace_all(s: Seq<char>, pat: Seq<char>, rep: Seq<char>) -> Seq<char>
    decreases s.len(),
{
    if s.len() == 0 || pat.len() == 0 {
        s
    } else if pat.is_prefix_of(s) {
        rep + replace_all(s.skip(pat.len() as int), pat, rep)
    } else {
        seq![s[0]] + replace_all(s.drop_first(), pat, rep)
    }
}

fn matches_at(s: &Vec<char>, i: usize, pat: &Vec<char>) -> (r: bool)
    requires
        i <= s@.len(),
    ensures
        r == pat@.is_prefix_of(s@.skip(i as int)),
{
    if pat.len() > s.len() - i {
        return false;
    }
    let mut k: usize = 0;
    while k < pat.len()
        invariant
            pat@.len() <= s@.len() - i,
            i <= s@.len(),
            k <= pat@.len(),
            forall|j: int| 0 <= j < k ==> pat@[j] == s@[i + j],
        decreases pat.len() - k,
    {
        assert(i + k < s.len());
        if pat[k] != s[i + k] {
            return false;
        }
        k = k + 1;
    }
    proof {
        assert(pat@ =~= s@.skip(i as int).subrange(0, pat@.len() as int));
    }
    true
}

/// The index page with the asset version filled in at every
/// `__MICHI_ASSET_HASH__` mark.
pub fn processed_html(raw: &str, version: &str) -> (s: String)
    ensures
        s@ == replace_all(raw@, "__MICHI_ASSET_HASH__"@, version@),
{
    let cs = chars_of(raw);
    let pat = chars_of("__MICHI_ASSET_HASH__");
    proof {
        reveal_strlit("__MICHI_ASSET_HASH__");
    }
    let mut out = String::new();
    let mut i: usize = 0;
    proof {
        assert(cs@.skip(0) =~= cs@);
    }
    while i < cs.len()
        invariant
            cs@ == raw@,
            pat@ == "__MICHI_ASSET_HASH__"@,
            pat@.len() == 20,
            i <= cs@.len(),
            out@ + replace_all(cs@.skip(i as int), pat@, version@) == replace_all(cs@, pat@, version@),
        decreases cs.len() - i,
    {
        if matches_at(&cs, i, &pat) {
            proof {
                assert(cs@.skip(i as int).skip(20) =~= cs@.skip(i as int + 20));
                assert(out@ + version@ + replace_all(cs@.skip(i as int + 20), pat@, version@) =~= out@
                    + (version@ + replace_all(cs@.skip(i as int + 20), pat@, version@)));
            }
            out.append(version);
            i = i + 20;
        } else {
            proof {
                assert(cs@.skip(i as int).drop_first() =~= cs@.skip(i as int + 1));
                assert(out@.push(cs@[i as int]) + replace_all(cs@.skip(i as int + 1), pat@, version@)
                    =~= out@ + (seq![cs@[i as int]] + replace_all(cs@.skip(i as int + 1), pat@, version@)));
            }
            push_char(&mut out, cs[i]);
            i = i + 1;
        }
    }
    proof {
        assert(cs@.skip(i as int) =~= Seq::<char>::empty());
        assert(out@ + Seq::<char>::empty() =~= out@);
    }
    out
}

/// The build commit: the value given at run time, else the one given at
/// build time; each trimmed, and only if it is not empty.
pub fn build_commit(runtime: Option<&str>, compiled: Option<&str>) -> (r: Option<String>)
    ensures
        (match r {
            Some(s) => Some(s@),
            None => None,
        }) == (if runtime matches Some(x) && trim(x@).len() > 0 {
            Some(trim(runtime->0@))
        } else if compiled matches Some(y) && trim(y@).len() > 0 {
            Some(trim(compiled->0@))
        } else {
            None
        }),
{
    if let Some(x) = runtime {
        let t = trim_chars(chars_of(x).as_slice());
        if t.len() > 0 {
            return Some(string_of(t.as_slice()));
        }
    }
    if let Some(y) = compiled {
        let t = trim_chars(chars_of(y).as_slice());
        if t.len() > 0 {
            return Some(string_of(t.as_slice()));
        }
    }
    None
}

} // verus!
