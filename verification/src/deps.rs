//! Calls into the crates this library builds on, each with the contract that
//! the crate's documentation gives it.
use vstd::prelude::*;
use rand::seq::SliceRandom;

verus! {

/// A fresh random identifier: `uuid::Uuid::new_v4()`, as its 128-bit value.
/// The value comes from the operating system's random source, so nothing is
/// stated about it.
#[verifier::external_body]
pub(crate) fn random_uuid() -> (id: u128) {
    uuid::Uuid::new_v4().as_u128()
}


/// The last `n` hexadecimal digits of `v`, most significant first, in lower
/// case.
pub open spec fn hex_digits(v: int, n: nat) -> Seq<char>
    decreases n,
{
    if n == 0 {
        Seq::empty()
    } else {
        hex_digits(v / 16, (n - 1) as nat).push(crate::text::hex_digit(v % 16))
    }
}

/// The hyphenated lower-case text of a UUID (`uuid::Uuid` `Display`): its
/// 32 hexadecimal digits in groups of 8, 4, 4, 4 and 12, joined by `-`.
pub open spec fn uuid_text(id: u128) -> Seq<char> {
    let d = hex_digits(id as int, 32);
    d.subrange(0, 8) + seq!['-'] + d.subrange(8, 12) + seq!['-'] + d.subrange(12, 16) + seq!['-']
        + d.subrange(16, 20) + seq!['-'] + d.subrange(20, 32)
}

/// What `uuid::Uuid::parse_str` gives for a text: the UUID's value, or none.
pub uninterp spec fn uuid_parsed(s: Seq<char>) -> Option<u128>;

/// The text of a UUID: `uuid::Uuid::from_u128(id).to_string()`.  The crate
/// documents that `parse_str` reads this form back.
#[verifier::external_body]
pub(crate) fn uuid_string(id: u128) -> (s: String)
    ensures
        s@ == uuid_text(id),
        uuid_parsed(s@) == Some(id),
{
    uuid::Uuid::from_u128(id).to_string()
}

/// The text of the error that `uuid::Uuid::parse_str` gives for a text it
/// refuses (the `Display` of `uuid::Error`).
pub uninterp spec fn uuid_error_text(s: Seq<char>) -> Seq<char>;

/// Parses a UUID: `uuid::Uuid::parse_str`, as its 128-bit value, or the
/// text of the crate's error.
#[verifier::external_body]
pub(crate) fn parse_uuid(s: &str) -> (r: Result<u128, String>)
    ensures
        match r {
            Ok(v) => uuid_parsed(s@) == Some(v),
            Err(m) => uuid_parsed(s@) is None && m@ == uuid_error_text(s@),
        },
{
    match uuid::Uuid::parse_str(s) {
        Ok(u) => Ok(u.as_u128()),
        Err(e) => Err(e.to_string()),
    }
}

/// A random index in `lo..hi`: `rand::Rng::gen_range` on the thread-local
/// generator.  Only the range is known of the result.
#[verifier::external_body]
pub(crate) fn random_in_range(lo: usize, hi: usize) -> (r: usize)
    requires
        lo < hi,
    ensures
        lo <= r < hi,
{
    rand::Rng::gen_range(&mut rand::thread_rng(), lo..hi)
}


/// What SHA-256 gives for a byte string.
pub uninterp spec fn sha256_digest(data: Seq<u8>) -> Seq<u8>;

/// SHA-256 of `data` (`sha2::Sha256::digest`): 32 bytes.
#[verifier::external_body]
pub(crate) fn sha256(data: &[u8]) -> (d: Vec<u8>)
    ensures
        d@ == sha256_digest(data@),
        d@.len() == 32,
{
    <sha2::Sha256 as sha2::Digest>::digest(data).to_vec()
}

/// The error type of the `password-hash` crate that `argon2` re-exports.
#[verifier::external_type_specification]
#[verifier::external_body]
pub struct ExPasswordHashError(argon2::password_hash::Error);

/// Whether Argon2 accepts a password for a PHC hash string: `None` when the
/// string is no valid password hash.
pub uninterp spec fn argon2_accepts(password: Seq<u8>, hash: Seq<char>) -> Option<bool>;

/// Checks a password against a PHC hash string with the default Argon2
/// (`argon2::PasswordHash::new`, then `PasswordVerifier::verify_password`).
#[verifier::external_body]
pub(crate) fn verify_password_argon2(password: &[u8], hash: &str) -> (r: Result<
    bool,
    argon2::password_hash::Error,
>)
    ensures
        match r {
            Ok(b) => argon2_accepts(password@, hash@) == Some(b),
            Err(_) => argon2_accepts(password@, hash@) is None,
        },
{
    let parsed = argon2::PasswordHash::new(hash)?;
    Ok(argon2::PasswordVerifier::verify_password(&argon2::Argon2::default(), password, &parsed).is_ok())
}

/// Hashes a password with the default Argon2 and a salt from the operating
/// system's random source (`argon2::PasswordHasher::hash_password`), as a
/// PHC string.  The crate documents that the default verifier accepts the
/// password for the hash it produced.  With the default parameters and the
/// 16-byte salt that `SaltString::generate` makes, the crate's source
/// refuses only a password longer than `argon2::MAX_PWD_LEN` (0xFFFF_FFFF
/// bytes, checked in `verify_inputs`); every other step (salt decoding,
/// output length, parameter string) is fixed by those defaults.
#[verifier::external_body]
pub(crate) fn hash_password_argon2(password: &[u8]) -> (r: Result<String, argon2::password_hash::Error>)
    ensures
        r matches Ok(h) ==> argon2_accepts(password@, h@) == Some(true),
        r is Ok <==> password@.len() <= 0xFFFF_FFFF,
{
    let salt = argon2::password_hash::SaltString::generate(&mut argon2::password_hash::rand_core::OsRng);
    Ok(argon2::PasswordHasher::hash_password(&argon2::Argon2::default(), password, &salt)?.to_string())
}

/// The message of a `password-hash` error (its `Display`).
#[verifier::external_body]
pub(crate) fn password_hash_error_text(e: &argon2::password_hash::Error) -> String {
    e.to_string()
}


/// What the standard base64 alphabet, with padding, decodes a text to:
/// `None` for a text that is no valid encoding.
pub uninterp spec fn base64_standard_decoded(s: Seq<char>) -> Option<Seq<u8>>;

/// Decodes standard, padded base64
/// (`base64::engine::general_purpose::STANDARD.decode`).
#[verifier::external_body]
pub(crate) fn base64_decode(s: &str) -> (r: Option<Vec<u8>>)
    ensures
        match r {
            Some(v) => base64_standard_decoded(s@) == Some(v@),
            None => base64_standard_decoded(s@) is None,
        },
{
    base64::Engine::decode(&base64::engine::general_purpose::STANDARD, s).ok()
}

/// Whether a character is alphabetic or numeric in Unicode.
pub uninterp spec fn unicode_alphanumeric(c: char) -> bool;

/// `char::is_alphanumeric`.  Its documentation defines it as Unicode
/// `Alphabetic` or `Numeric`, which among ASCII characters are exactly the
/// letters and digits.
#[verifier::external_body]
pub(crate) fn char_is_alphanumeric(c: char) -> (r: bool)
    ensures
        r == unicode_alphanumeric(c),
        (c as u32) < 0x80 ==> r == (('a' <= c && c <= 'z') || ('A' <= c && c <= 'Z') || ('0' <= c
            && c <= '9')),
{
    c.is_alphanumeric()
}

/// What `str::to_lowercase` gives for a text.
pub uninterp spec fn unicode_lowercase(s: Seq<char>) -> Seq<char>;

/// `str::to_lowercase`.  On ASCII text it lowers exactly the letters `A` to
/// `Z`, as its documentation states of ASCII.
#[verifier::external_body]
pub(crate) fn to_lowercase(s: &str) -> (r: String)
    ensures
        r@ == unicode_lowercase(s@),
        (forall|i: int| 0 <= i < s@.len() ==> (s@[i] as u32) < 0x80) ==> r@ == s@.map_values(
            |c: char|
                if 'A' <= c && c <= 'Z' {
                    ((c as int) + 32) as char
                } else {
                    c
                },
        ),
{
    s.to_lowercase()
}


/// The lowercase hexadecimal BLAKE3 hash of a byte string.
pub uninterp spec fn blake3_hex(data: Seq<u8>) -> Seq<char>;

/// BLAKE3 of `data` in lowercase hexadecimal (`blake3::hash`, then
/// `to_hex`).
#[verifier::external_body]
pub(crate) fn blake3_hex_string(data: &[u8]) -> (s: String)
    ensures
        s@ == blake3_hex(data@),
{
    blake3::hash(data).to_hex().to_string()
}


/// The instant an RFC 3339 text names, as whole seconds since the Unix epoch
/// and the nanoseconds past them; `None` for a text that is no RFC 3339
/// date and time.
pub uninterp spec fn rfc3339_parsed(s: Seq<char>) -> Option<(i64, u32)>;

/// Parses an RFC 3339 date and time (`chrono::DateTime::parse_from_rfc3339`),
/// giving its `timestamp` and `timestamp_subsec_nanos`.
#[verifier::external_body]
pub(crate) fn parse_rfc3339(s: &str) -> (r: Option<(i64, u32)>)
    ensures
        r == rfc3339_parsed(s@),
        r matches Some((_, n)) ==> n < 2_000_000_000,
{
    match chrono::DateTime::parse_from_rfc3339(s) {
        Ok(t) => Some((t.timestamp(), t.timestamp_subsec_nanos())),
        Err(_) => None,
    }
}


/// The media type that a byte string's signature shows, if any.
pub uninterp spec fn inferred_mime(data: Seq<u8>) -> Option<Seq<char>>;

/// The media type of `data` by its magic bytes (`infer::get`, then
/// `mime_type`).
#[verifier::external_body]
pub(crate) fn infer_mime(data: &[u8]) -> (r: Option<&'static str>)
    ensures
        match r {
            Some(m) => inferred_mime(data@) == Some(m@),
            None => inferred_mime(data@) is None,
        },
{
    match infer::get(data) {
        Some(t) => Some(t.mime_type()),
        None => None,
    }
}


/// The `Debug` text of a list of strings: quoted and escaped, between
/// brackets, separated by `, `.
pub uninterp spec fn debug_text_list(items: Seq<Seq<char>>) -> Seq<char>;

/// `format!("{:?}", items)` for a list of strings.
#[verifier::external_body]
pub(crate) fn debug_string_list(items: &Vec<String>) -> (s: String)
    ensures
        s@ == debug_text_list(items@.map_values(|x: String| x@)),
{
    format!("{:?}", items)
}


/// A random choice of `amount` items of `items` (all of them when there are
/// fewer), each taken from a different position, in random order:
/// `rand::seq::SliceRandom::choose_multiple` on the thread-local generator.
/// Which items come out, and in what order, is left open.
#[verifier::external_body]
pub(crate) fn random_choice(items: &Vec<u128>, amount: usize) -> (r: Vec<u128>)
    ensures
        r.len() == (if amount < items.len() { amount as int } else { items.len() as int }),
        exists|idx: Seq<int>|
            #![trigger idx.no_duplicates()]
            idx.len() == r.len() && idx.no_duplicates() && forall|i: int|
                0 <= i < r.len() ==> 0 <= #[trigger] idx[i] < items.len() && r@[i] == items@[idx[i]],
{
    items.as_slice().choose_multiple(&mut rand::thread_rng(), amount).cloned().collect()
}

/// What `urlencoding::decode` gives for a text: the text with its `%XX`
/// escapes decoded, or none when the decoded bytes are not UTF-8.
pub uninterp spec fn url_decoded(s: Seq<char>) -> Option<Seq<char>>;

/// Whether a text holds a percent sign, which starts an escape.
pub open spec fn has_escape(s: Seq<char>) -> bool {
    s.contains('%')
}

/// Decodes the percent escapes of a URL path segment: `urlencoding::decode`.
/// A text without `%` is handed back unchanged, as the crate's source shows.
#[verifier::external_body]
pub(crate) fn url_decode(s: &str) -> (r: Option<String>)
    ensures
        url_decoded(s@) == (match r {
            Some(d) => Some(d@),
            None => None::<Seq<char>>,
        }),
        has_escape(s@) || (r is Some && r->0@ == s@),
{
    match urlencoding::decode(s) {
        Ok(d) => Some(d.into_owned()),
        Err(_) => None,
    }
}

/// What a text read as JSON holds under `key`: none when the text is not
/// JSON; else the string stored under `key` in an object, or none where
/// there is no such string.
pub uninterp spec fn json_string_field(text: Seq<char>, key: Seq<char>) -> Option<Option<Seq<char>>>;

/// Reads the string under `key` of a JSON text: `serde_json::from_str` into
/// a `serde_json::Value`, then `Value::get` and the `String` variant.
#[verifier::external_body]
pub(crate) fn json_field(text: &str, key: &str) -> (r: Option<Option<String>>)
    ensures
        json_string_field(text@, key@) == (match r {
            Some(Some(v)) => Some(Some(v@)),
            Some(None) => Some(None::<Seq<char>>),
            None => None::<Option<Seq<char>>>,
        }),
{
    match serde_json::from_str::<serde_json::Value>(text) {
        Ok(v) => match v.get(key) {
            Some(serde_json::Value::String(s)) => Some(Some(s.clone())),
            _ => Some(None),
        },
        Err(_) => None,
    }
}


/// 32 bytes from the operating system's random source
/// (`rand::RngCore::fill_bytes` on `rand::rngs::OsRng`).  Nothing but their
/// number is stated.
#[verifier::external_body]
pub(crate) fn random_token_bytes() -> (b: Vec<u8>)
    ensures
        b@.len() == 32,
{
    let mut bytes = [0u8; 32];
    rand::RngCore::fill_bytes(&mut rand::rngs::OsRng, &mut bytes);
    bytes.to_vec()
}

/// The character of a 6-bit value in the URL-safe base64 alphabet
/// (`A`-`Z`, `a`-`z`, `0`-`9`, `-`, `_`).
pub open spec fn url_safe_digit(n: int) -> char {
    if n < 26 {
        ((n + ('A' as int)) as char)
    } else if n < 52 {
        ((n - 26 + ('a' as int)) as char)
    } else if n < 62 {
        ((n - 52 + ('0' as int)) as char)
    } else if n == 62 {
        '-'
    } else {
        '_'
    }
}

/// A byte string in URL-safe base64 without padding: each group of three
/// bytes gives four characters of six bits each, high bits first; a last
/// group of one or two bytes gives two or three characters.
pub open spec fn base64_url_no_pad(data: Seq<u8>) -> Seq<char>
    decreases data.len(),
{
    if data.len() == 0 {
        Seq::empty()
    } else {
        let b0 = data[0] as int;
        if data.len() == 1 {
            seq![url_safe_digit(b0 / 4), url_safe_digit((b0 % 4) * 16)]
        } else {
            let b1 = data[1] as int;
            if data.len() == 2 {
                seq![
                    url_safe_digit(b0 / 4),
                    url_safe_digit((b0 % 4) * 16 + b1 / 16),
                    url_safe_digit((b1 % 16) * 4),
                ]
            } else {
                let b2 = data[2] as int;
                seq![
                    url_safe_digit(b0 / 4),
                    url_safe_digit((b0 % 4) * 16 + b1 / 16),
                    url_safe_digit((b1 % 16) * 4 + b2 / 64),
                    url_safe_digit(b2 % 64),
                ] + base64_url_no_pad(data.subrange(3, data.len() as int))
            }
        }
    }
}

/// Whether a character belongs to the URL-safe base64 alphabet.
pub open spec fn url_safe_base64_char(c: char) -> bool {
    ('A' <= c && c <= 'Z') || ('a' <= c && c <= 'z') || ('0' <= c && c <= '9') || c == '-' || c == '_'
}

/// The URL-safe base64 text of `n` bytes has `(4n + 2) / 3` characters,
/// each from the URL-safe alphabet.
pub proof fn lemma_base64_url_shape(data: Seq<u8>)
    ensures
        base64_url_no_pad(data).len() == (4 * data.len() + 2) / 3,
        forall|i: int|
            0 <= i < base64_url_no_pad(data).len() ==> url_safe_base64_char(
                #[trigger] base64_url_no_pad(data)[i],
            ),
    decreases data.len(),
{
    assert forall|n: int| 0 <= n < 64 implies url_safe_base64_char(#[trigger] url_safe_digit(n)) by {}
    if data.len() >= 3 {
        let rest = data.subrange(3, data.len() as int);
        lemma_base64_url_shape(rest);
        let b0 = data[0] as int;
        let b1 = data[1] as int;
        let b2 = data[2] as int;
        let head = seq![
            url_safe_digit(b0 / 4),
            url_safe_digit((b0 % 4) * 16 + b1 / 16),
            url_safe_digit((b1 % 16) * 4 + b2 / 64),
            url_safe_digit(b2 % 64),
        ];
        assert(base64_url_no_pad(data) == head + base64_url_no_pad(rest));
        assert forall|i: int| 0 <= i < base64_url_no_pad(data).len() implies url_safe_base64_char(
            #[trigger] base64_url_no_pad(data)[i],
        ) by {
            if i < 4 {
                assert(base64_url_no_pad(data)[i] == head[i]);
            } else {
                assert(base64_url_no_pad(data)[i] == base64_url_no_pad(rest)[i - 4]);
            }
        }
    }
}

/// Encodes bytes in URL-safe base64 without padding
/// (`base64::engine::general_purpose::URL_SAFE_NO_PAD.encode`), with the
/// crate's `URL_SAFE` alphabet.  The bound on the input keeps
/// `encoded_len` from overflowing, where `encode` panics.
#[verifier::external_body]
pub(crate) fn base64_url_encode(data: &[u8]) -> (s: String)
    requires
        data@.len() < 0x4000_0000,
    ensures
        s@ == base64_url_no_pad(data@),
{
    base64::Engine::encode(&base64::engine::general_purpose::URL_SAFE_NO_PAD, data)
}

} // verus!
