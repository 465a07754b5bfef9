//! Shared links to a track: the token a link is opened with and what is
//! stored of it, with its password hashed.
use vstd::prelude::*;

use crate::auth::{hash_password, hash_token};
use crate::deps::{argon2_accepts, random_uuid, sha256_digest, uuid_string, uuid_text};
use crate::text::hex_lower;

verus! {

/// A request to share a track.
#[derive(Debug)]
pub struct CreateShareBody {
    pub track_id: u128,
    pub password: Option<String>,
    pub expires_in_hours: Option<i64>,
    pub max_plays: Option<i64>,
    pub allow_stream: Option<bool>,
    pub allow_download: Option<bool>,
}

/// What is stored of a new shared link, and the token handed to its
/// creator.
#[derive(Debug)]
pub struct ShareGrant {
    /// The token, which only its creator learns.
    pub token: String,
    /// The lowercase hexadecimal SHA-256 digest of the token, which is stored.
    pub token_hash: String,
    /// The hash of the link's password, if it has one.
    pub password_hash: Option<String>,
    pub track_id: u128,
    pub max_plays: Option<i64>,
    pub allow_stream: bool,
    pub allow_download: bool,
}

/// What a stored password hash must be for `password`: an Argon2 hash that
/// accepts it, or, where hashing failed, the lowercase hexadecimal SHA-256
/// digest of the password.
pub open spec fn protects(hash: Seq<char>, password: Seq<char>) -> bool {
    ||| argon2_accepts(vstd::utf8::encode_utf8(password), hash) == Some(true)
    ||| hash == hex_lower(sha256_digest(vstd::utf8::encode_utf8(password)))
}

/// The hash stored for a share's password.
pub fn share_password_hash(password: &str) -> (h: String)
    ensures
        protects(h@, password@),
{
    match hash_password(password) {
        Ok(h) => h,
        Err(_) => hash_token(password),
    }
}

/// The grant for a shared link opened with the token `token`: the token's
/// digest is stored, never the token; a password is stored hashed; streams
/// are allowed and downloads refused unless the request says otherwise.
pub fn share_grant(body: &CreateShareBody, token: u128) -> (g: ShareGrant)
    ensures
        g.token@ == uuid_text(token),
        g.token_hash@ == hex_lower(sha256_digest(vstd::utf8::encode_utf8(uuid_text(token)))),
        match body.password {
            Some(p) => g.password_hash matches Some(h) && protects(h@, p@),
            None => g.password_hash is None,
        },
        g.track_id == body.track_id,
        g.max_plays == body.max_plays,
        g.allow_stream == (match body.allow_stream { Some(b) => b, None => true }),
        g.allow_download == (match body.allow_download { Some(b) => b, None => false }),
{
    let text = uuid_string(token);
    let token_hash = hash_token(text.as_str());
    let password_hash = match &body.password {
        Some(p) => Some(share_password_hash(p.as_str())),
        None => None,
    };
    ShareGrant {
        token: text,
        token_hash,
        password_hash,
        track_id: body.track_id,
        max_plays: body.max_plays,
        allow_stream: match body.allow_stream {
            Some(b) => b,
            None => true,
        },
        allow_download: match body.allow_download {
            Some(b) => b,
            None => false,
        },
    }
}

/// Creates the grant for a new shared link, with a fresh random token.
pub fn create_share(body: &CreateShareBody) -> (g: ShareGrant)
    ensures
        g.token_hash@ == hex_lower(sha256_digest(vstd::utf8::encode_utf8(g.token@))),
        match body.password {
            Some(p) => g.password_hash matches Some(h) && protects(h@, p@),
            None => g.password_hash is None,
        },
        g.track_id == body.track_id,
        g.max_plays == body.max_plays,
        g.allow_stream == (match body.allow_stream { Some(b) => b, None => true }),
        g.allow_download == (match body.allow_download { Some(b) => b, None => false }),
{
    let token = random_uuid();
    share_grant(body, token)
}

} // verus!
