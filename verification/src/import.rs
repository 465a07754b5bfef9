//! Importing tracks from a player: the session limits, the checks an upload
//! must pass, the names its file gets, how a commit decides and how
//! preflight matches a track against the library.
use vstd::prelude::*;
use vstd::string::StringExecFns;
use std::collections::HashMap;

use crate::deps::{
    base64_decode, base64_standard_decoded, char_is_alphanumeric, sha256, sha256_digest,
    to_lowercase, unicode_alphanumeric, unicode_lowercase,
};
use crate::paths::{extension_chars, file_name, file_name_chars, join, join_path, path_extension, path_stem, stem_chars};
use crate::text::{chars_of, hex_lower, hex_string, push_char, str_eq, string_of};

verus! {

/// The largest file one upload may carry: 100 MiB.
pub const MAX_FILE_SIZE: u64 = 104857600;

/// The largest total size of one import session: 1 GiB.
pub const MAX_SESSION_SIZE: u64 = 1073741824;

/// How many import sessions may be open at once.
pub const MAX_IMPORT_SESSIONS: usize = 100;

/// The most tracks one session may announce.
pub const MAX_SESSION_TRACKS: u32 = 10000;

/// The audio extensions that an upload may have.
pub open spec fn allowed_exts() -> Seq<Seq<char>> {
    seq!["mp3"@, "flac"@, "ogg"@, "opus"@, "aac"@, "m4a"@, "wav"@]
}

/// A request to open an import session.
#[derive(Debug)]
pub struct ImportSessionRequest {
    pub total_tracks: u32,
    pub total_playlists: u32,
}

/// One uploaded file, base64 encoded.
#[derive(Debug)]
pub struct ImportUploadBody {
    pub filename: String,
    pub hash: Option<String>,
    pub data: String,
}

/// A file staged by an import session.
#[derive(Debug)]
pub struct ImportFile {
    pub local_track_id: Option<u128>,
    pub filename: String,
    pub safe_name: String,
    pub staging_filename: String,
    pub checksum: String,
    pub size_bytes: u64,
    pub remote_track_id: u128,
}

/// The state of an open import session.
#[derive(Debug)]
pub struct ImportSessionState {
    pub session_id: u128,
    pub total_tracks: u32,
    pub total_playlists: u32,
    pub imported_tracks: u32,
    pub total_size_bytes: u64,
    pub device_id: u128,
    pub seen_hashes: Vec<String>,
    pub files: Vec<ImportFile>,
}

/// A refused import request.
#[derive(Debug)]
pub enum ImportError {
    /// `400 INVALID_REQUEST`: the session would import nothing.
    NothingToImport,
    /// `400 TOO_MANY_TRACKS`.
    TooManyTracks,
    /// `429 TOO_MANY_SESSIONS`.
    TooManySessions,
    /// `404 SESSION_NOT_FOUND`.
    SessionNotFound,
    /// `400 INVALID_EXTENSION`.
    InvalidExtension,
    /// `400 INVALID_DATA`: the data is no base64.
    InvalidData,
    /// `400 FILE_TOO_LARGE`.
    FileTooLarge,
    /// `400 SESSION_SIZE_EXCEEDED`.
    SessionSizeExceeded,
    /// `400 HASH_MISMATCH`.
    HashMismatch,
    /// `409 DESTINATION_CONFLICT`: a different file already has this name.
    DestinationConflict(String),
    /// `409 UNRESOLVED_CONFLICTS`.
    UnresolvedConflicts,
}

/// The code of a refused import request.
pub open spec fn import_error_code(e: ImportError) -> Seq<char> {
    match e {
        ImportError::NothingToImport => "INVALID_REQUEST"@,
        ImportError::TooManyTracks => "TOO_MANY_TRACKS"@,
        ImportError::TooManySessions => "TOO_MANY_SESSIONS"@,
        ImportError::SessionNotFound => "SESSION_NOT_FOUND"@,
        ImportError::InvalidExtension => "INVALID_EXTENSION"@,
        ImportError::InvalidData => "INVALID_DATA"@,
        ImportError::FileTooLarge => "FILE_TOO_LARGE"@,
        ImportError::SessionSizeExceeded => "SESSION_SIZE_EXCEEDED"@,
        ImportError::HashMismatch => "HASH_MISMATCH"@,
        ImportError::DestinationConflict(_) => "DESTINATION_CONFLICT"@,
        ImportError::UnresolvedConflicts => "UNRESOLVED_CONFLICTS"@,
    }
}

/// The message of a refused import request.
pub open spec fn import_error_message(e: ImportError) -> Seq<char> {
    match e {
        ImportError::NothingToImport => "total_tracks or total_playlists must be > 0"@,
        ImportError::TooManyTracks => "max 10000 tracks per session"@,
        ImportError::TooManySessions => "Too many active import sessions. Complete or cancel existing sessions first."@,
        ImportError::SessionNotFound => "import session not found or expired"@,
        ImportError::InvalidExtension => "extension not allowed. Accepted: mp3, flac, ogg, opus, aac, m4a, wav"@,
        ImportError::InvalidData => "invalid base64 data"@,
        ImportError::FileTooLarge => "file exceeds max size of 104857600 bytes"@,
        ImportError::SessionSizeExceeded => "session exceeds max total size of 1073741824 bytes"@,
        ImportError::HashMismatch => "SHA256 hash does not match data"@,
        ImportError::DestinationConflict(n) => "Destination file "@ + n@
            + " already exists with different checksum. Commit aborted."@,
        ImportError::UnresolvedConflicts => "Import has duration conflicts with existing tracks. Rollback and fix metadata before retrying."@,
    }
}

impl ImportError {
    /// The error code.
    pub fn code(&self) -> (s: &'static str)
        ensures
            s@ == import_error_code(*self),
    {
        match self {
            ImportError::NothingToImport => "INVALID_REQUEST",
            ImportError::TooManyTracks => "TOO_MANY_TRACKS",
            ImportError::TooManySessions => "TOO_MANY_SESSIONS",
            ImportError::SessionNotFound => "SESSION_NOT_FOUND",
            ImportError::InvalidExtension => "INVALID_EXTENSION",
            ImportError::InvalidData => "INVALID_DATA",
            ImportError::FileTooLarge => "FILE_TOO_LARGE",
            ImportError::SessionSizeExceeded => "SESSION_SIZE_EXCEEDED",
            ImportError::HashMismatch => "HASH_MISMATCH",
            ImportError::DestinationConflict(_) => "DESTINATION_CONFLICT",
            ImportError::UnresolvedConflicts => "UNRESOLVED_CONFLICTS",
        }
    }

    /// The HTTP status of the error.
    pub fn status(&self) -> (s: u16)
        ensures
            s == (match self {
                ImportError::TooManySessions => 429u16,
                ImportError::SessionNotFound => 404u16,
                ImportError::DestinationConflict(_) => 409u16,
                ImportError::UnresolvedConflicts => 409u16,
                _ => 400u16,
            }),
    {
        match self {
            ImportError::TooManySessions => 429,
            ImportError::SessionNotFound => 404,
            ImportError::DestinationConflict(_) => 409,
            ImportError::UnresolvedConflicts => 409,
            _ => 400,
        }
    }

    /// The error's message.
    pub fn message(&self) -> (s: String)
        ensures
            s@ == import_error_message(*self),
    {
        match self {
            ImportError::NothingToImport => String::from_str("total_tracks or total_playlists must be > 0"),
            ImportError::TooManyTracks => String::from_str("max 10000 tracks per session"),
            ImportError::TooManySessions => String::from_str(
                "Too many active import sessions. Complete or cancel existing sessions first.",
            ),
            ImportError::SessionNotFound => String::from_str("import session not found or expired"),
            ImportError::InvalidExtension => String::from_str(
                "extension not allowed. Accepted: mp3, flac, ogg, opus, aac, m4a, wav",
            ),
            ImportError::InvalidData => String::from_str("invalid base64 data"),
            ImportError::FileTooLarge => String::from_str("file exceeds max size of 104857600 bytes"),
            ImportError::SessionSizeExceeded => String::from_str(
                "session exceeds max total size of 1073741824 bytes",
            ),
            ImportError::HashMismatch => String::from_str("SHA256 hash does not match data"),
            ImportError::DestinationConflict(n) => {
                let mut s = String::from_str("Destination file ");
                s.append(n.as_str());
                s.append(" already exists with different checksum. Commit aborted.");
                s
            },
            ImportError::UnresolvedConflicts => String::from_str(
                "Import has duration conflicts with existing tracks. Rollback and fix metadata before retrying.",
            ),
        }
    }
}

/// Checks a request to open an import session.
pub fn check_session_request(req: &ImportSessionRequest) -> (r: Result<(), ImportError>)
    ensures
        req.total_tracks == 0 && req.total_playlists == 0 ==> r matches Err(
            ImportError::NothingToImport,
        ),
        !(req.total_tracks == 0 && req.total_playlists == 0) && req.total_tracks > 10000 ==> r matches Err(
            ImportError::TooManyTracks,
        ),
        !(req.total_tracks == 0 && req.total_playlists == 0) && req.total_tracks <= 10000 ==> r is Ok,
{
    if req.total_tracks == 0 && req.total_playlists == 0 {
        return Err(ImportError::NothingToImport);
    }
    if req.total_tracks > MAX_SESSION_TRACKS {
        return Err(ImportError::TooManyTracks);
    }
    Ok(())
}

/// The character that a file name keeps in its safe form.
pub open spec fn safe_char(c: char) -> char {
    if unicode_alphanumeric(c) || c == '.' || c == '-' || c == '_' {
        c
    } else {
        '_'
    }
}

/// The safe form of an uploaded file name: its last path component (or
/// `unknown`), with every character other than letters, digits, `.`, `-`
/// and `_` replaced by `_`.
pub open spec fn sanitized(filename: Seq<char>) -> Seq<char> {
    let name = match file_name(filename) {
        Some(n) => n,
        None => "unknown"@,
    };
    name.map_values(|c: char| safe_char(c))
}

/// The name whose characters a safe name is made of: the last path
/// component of the upload's file name, or `unknown`.
pub open spec fn upload_name(filename: Seq<char>) -> Seq<char> {
    match file_name(filename) {
        Some(n) => n,
        None => "unknown"@,
    }
}

/// Whether a character is ASCII.
pub open spec fn is_ascii_char(c: char) -> bool {
    (c as u32) < 0x80
}

/// `safe_char` on an ASCII character: ASCII letters, digits, `.`, `-` and
/// `_` stay, anything else becomes `_`.
pub open spec fn ascii_safe_char(c: char) -> char {
    if ('a' <= c && c <= 'z') || ('A' <= c && c <= 'Z') || ('0' <= c && c <= '9') || c == '.' || c
        == '-' || c == '_' {
        c
    } else {
        '_'
    }
}

/// ASCII text lower-cased: `A` to `Z` become `a` to `z`.
pub open spec fn ascii_lowered(s: Seq<char>) -> Seq<char> {
    s.map_values(|c: char| if 'A' <= c && c <= 'Z' { ((c as int) + 32) as char } else { c })
}

/// The safe name under which an uploaded file is stored.
pub fn sanitize_filename(filename: &str) -> (s: String)
    ensures
        s@ == sanitized(filename@),
        s@.len() == upload_name(filename@).len(),
        forall|k: int|
            0 <= k < s@.len() && is_ascii_char(#[trigger] upload_name(filename@)[k]) ==> s@[k]
                == ascii_safe_char(upload_name(filename@)[k]),
{
    let cs = chars_of(filename);
    let name = match file_name_chars(cs.as_slice()) {
        Some(n) => n,
        None => chars_of("unknown"),
    };
    let mut s = String::new();
    let mut i: usize = 0;
    while i < name.len()
        invariant
            i <= name@.len(),
            s@ == name@.take(i as int).map_values(|c: char| safe_char(c)),
            forall|k: int|
                0 <= k < i && is_ascii_char(#[trigger] name@[k]) ==> safe_char(name@[k]) == ascii_safe_char(
                    name@[k],
                ),
        decreases name.len() - i,
    {
        let c = name[i];
        let alnum = char_is_alphanumeric(c);
        let keep = alnum || c == '.' || c == '-' || c == '_';
        push_char(&mut s, if keep { c } else { '_' });
        proof {
            assert(name@.take(i as int + 1).map_values(|c: char| safe_char(c)) =~= name@.take(
                i as int,
            ).map_values(|c: char| safe_char(c)).push(safe_char(c)));
        }
        i = i + 1;
    }
    proof {
        assert(name@.take(name@.len() as int) =~= name@);
        assert(name@ == upload_name(filename@));
        assert forall|k: int|
            0 <= k < s@.len() && is_ascii_char(#[trigger] upload_name(filename@)[k]) implies s@[k]
                == ascii_safe_char(upload_name(filename@)[k]) by {
            assert(s@[k] == safe_char(name@[k]));
        }
    }
    s
}

/// The lower-cased extension of an upload's file name.
pub open spec fn upload_ext(filename: Seq<char>) -> Option<Seq<char>> {
    match path_extension(filename) {
        Some(e) => Some(unicode_lowercase(e)),
        None => None,
    }
}

/// Whether an upload's extension is one of the audio extensions, in any
/// case.
pub open spec fn spec_allowed_extension(filename: Seq<char>) -> bool {
    match upload_ext(filename) {
        Some(e) => allowed_exts().contains(e),
        None => false,
    }
}

fn lower_ext(filename: &str) -> (r: Option<String>)
    ensures
        match r {
            Some(e) => upload_ext(filename@) == Some(e@),
            None => upload_ext(filename@) is None,
        },
        match path_extension(filename@) {
            Some(x) => (forall|i: int| 0 <= i < x.len() ==> is_ascii_char(#[trigger] x[i])) ==> (r matches Some(
                e,
            ) && e@ == ascii_lowered(x)),
            None => true,
        },
{
    let cs = chars_of(filename);
    match extension_chars(cs.as_slice()) {
        Some(e) => {
            let es = string_of(e.as_slice());
            Some(to_lowercase(es.as_str()))
        },
        None => None,
    }
}

fn is_allowed_ext_text(e: &str) -> (r: bool)
    ensures
        r == allowed_exts().contains(e@),
{
    let exts: [&str; 7] = ["mp3", "flac", "ogg", "opus", "aac", "m4a", "wav"];
    let ghost es = exts@.map_values(|x: &str| x@);
    assert(es =~= allowed_exts());
    let mut i: usize = 0;
    while i < 7
        invariant
            es == exts@.map_values(|x: &str| x@),
            es == allowed_exts(),
            i <= 7,
            forall|k: int| 0 <= k < i ==> allowed_exts()[k] != e@,
        decreases 7 - i,
    {
        proof {
            assert(allowed_exts()[i as int] == exts@[i as int]@);
        }
        if str_eq(exts[i], e) {
            proof {
                assert(allowed_exts()[i as int] == e@);
            }
            return true;
        }
        i = i + 1;
    }
    false
}

/// Whether an uploaded file has an accepted audio extension.
pub fn is_allowed_extension(filename: &str) -> (r: bool)
    ensures
        r == spec_allowed_extension(filename@),
        match path_extension(filename@) {
            Some(x) => (forall|i: int| 0 <= i < x.len() ==> is_ascii_char(#[trigger] x[i])) ==> r
                == allowed_exts().contains(ascii_lowered(x)),
            None => true,
        },
{
    match lower_ext(filename) {
        Some(e) => is_allowed_ext_text(e.as_str()),
        None => false,
    }
}

/// The directory in which import sessions stage their files.
pub fn get_staging_dir(music_paths: &Vec<String>, cache_path: &str) -> (r: String)
    ensures
        r@ == join(cache_path@, "import_staging"@),
{
    join_path(cache_path, "import_staging")
}

/// The staging directory of one import session.
pub fn get_session_dir(music_paths: &Vec<String>, cache_path: &str, session_id: u128) -> (r: String)
    ensures
        r@ == join(join(cache_path@, "import_staging"@), crate::deps::uuid_text(session_id)),
{
    let staging = get_staging_dir(music_paths, cache_path);
    let id = crate::deps::uuid_string(session_id);
    join_path(staging.as_str(), id.as_str())
}

/// The lowercase hexadecimal SHA-256 of some bytes.
pub open spec fn checksum_of(data: Seq<u8>) -> Seq<char> {
    hex_lower(sha256_digest(data))
}

/// The lowercase hexadecimal SHA-256 of `data`.
pub fn compute_sha256(data: &[u8]) -> (s: String)
    ensures
        s@ == checksum_of(data@),
{
    let d = sha256(data);
    hex_string(d.as_slice())
}

/// What an accepted upload does.
#[derive(Debug)]
pub enum UploadPlan {
    /// The session already holds this content: nothing is stored.
    Duplicate { checksum: String },
    /// Store `data` under `staging_filename` and import it as `safe_name`.
    Store {
        data: Vec<u8>,
        checksum: String,
        ext: String,
        staging_filename: String,
        safe_name: String,
    },
}

/// Whether the session already staged a different file under `safe_name`.
pub open spec fn name_taken(files: Seq<ImportFile>, safe_name: Seq<char>, checksum: Seq<char>) -> bool {
    exists|i: int|
        0 <= i < files.len() && (#[trigger] files[i]).safe_name@ == safe_name && files[i].checksum@
            != checksum
}

/// The name under which an upload is imported: its safe name, or, when a
/// different file of the session already took that name, the safe name's
/// stem with the first 8 digits of the checksum.
pub open spec fn final_safe_name(
    files: Seq<ImportFile>,
    filename: Seq<char>,
    checksum: Seq<char>,
    ext: Seq<char>,
) -> Seq<char> {
    let safe = sanitized(filename);
    if name_taken(files, safe, checksum) {
        let stem = match path_stem(safe) {
            Some(s) => s,
            None => "track"@,
        };
        stem + "_"@ + checksum.take(if checksum.len() < 8 { checksum.len() as int } else { 8 })
            + "."@ + ext
    } else {
        safe
    }
}

fn take_chars(s: &str, n: usize) -> (r: String)
    ensures
        r@ == s@.take(if s@.len() < n { s@.len() as int } else { n as int }),
{
    let cs = chars_of(s);
    let m = if cs.len() < n { cs.len() } else { n };
    let mut out = String::new();
    let mut i: usize = 0;
    while i < m
        invariant
            cs@ == s@,
            m <= cs@.len(),
            i <= m,
            out@ == s@.take(i as int),
        decreases m - i,
    {
        push_char(&mut out, cs[i]);
        proof {
            assert(s@.take(i as int + 1) =~= s@.take(i as int).push(s@[i as int]));
        }
        i = i + 1;
    }
    out
}

fn name_taken_exec(files: &Vec<ImportFile>, safe_name: &str, checksum: &str) -> (r: bool)
    ensures
        r == name_taken(files@, safe_name@, checksum@),
{
    let mut i: usize = 0;
    while i < files.len()
        invariant
            i <= files@.len(),
            forall|k: int|
                0 <= k < i ==> !((#[trigger] files@[k]).safe_name@ == safe_name@ && files@[k].checksum@
                    != checksum@),
        decreases files.len() - i,
    {
        if str_eq(files[i].safe_name.as_str(), safe_name) && !str_eq(files[i].checksum.as_str(), checksum) {
            proof {
                assert(files@[i as int].safe_name@ == safe_name@);
            }
            return true;
        }
        i = i + 1;
    }
    false
}

/// Whether the session has already seen content with this checksum.
pub open spec fn seen(hashes: Seq<String>, checksum: Seq<char>) -> bool {
    exists|i: int| 0 <= i < hashes.len() && (#[trigger] hashes[i])@ == checksum
}

fn seen_exec(hashes: &Vec<String>, checksum: &str) -> (r: bool)
    ensures
        r == seen(hashes@, checksum@),
{
    let mut i: usize = 0;
    while i < hashes.len()
        invariant
            i <= hashes@.len(),
            forall|k: int| 0 <= k < i ==> (#[trigger] hashes@[k])@ != checksum@,
        decreases hashes.len() - i,
    {
        if str_eq(hashes[i].as_str(), checksum) {
            return true;
        }
        i = i + 1;
    }
    false
}

/// The checksum that an upload must match: the `X-Checksum` header, else
/// the body's hash.
pub open spec fn expected_checksum(header: Option<Seq<char>>, body_hash: Option<String>) -> Option<Seq<char>> {
    match header {
        Some(h) => Some(h),
        None => match body_hash {
            Some(h) => Some(h@),
            None => None,
        },
    }
}

/// How an upload is decided once its content is hashed.
#[derive(Debug, Clone, Copy, PartialEq, Eq, Structural)]
pub enum UploadKind {
    /// The declared checksum differs from the content's.
    Mismatch,
    /// The session has seen this content: nothing is stored.
    Duplicate,
    /// New content: it is stored.
    Store,
}

/// The decision on hashed content `sum`, against the checksum the upload
/// declares and the checksums the session has seen.
pub open spec fn upload_kind(seen_hashes: Seq<String>, expected: Option<Seq<char>>, sum: Seq<char>) -> UploadKind {
    if expected matches Some(e) && e != sum {
        UploadKind::Mismatch
    } else if seen(seen_hashes, sum) {
        UploadKind::Duplicate
    } else {
        UploadKind::Store
    }
}

/// The kind of a planned upload.
pub open spec fn plan_kind(r: Result<UploadPlan, ImportError>) -> UploadKind {
    match r {
        Ok(UploadPlan::Duplicate { .. }) => UploadKind::Duplicate,
        Ok(UploadPlan::Store { .. }) => UploadKind::Store,
        Err(_) => UploadKind::Mismatch,
    }
}

/// What recording an upload of content `checksum` and `size` bytes does to
/// a session's counters and seen checksums.
pub open spec fn counts_upload(
    before: ImportSessionState,
    after: ImportSessionState,
    checksum: Seq<char>,
    size: u64,
) -> bool {
    &&& after.imported_tracks == before.imported_tracks + 1
    &&& after.total_size_bytes == before.total_size_bytes + size
    &&& after.seen_hashes@.len() == before.seen_hashes@.len() + 1
    &&& forall|i: int|
        0 <= i < before.seen_hashes@.len() ==> (#[trigger] after.seen_hashes@[i])@ == before.seen_hashes@[i]@
    &&& after.seen_hashes@.last()@ == checksum
}

/// Decides an upload whose content has been decoded (`data`) and hashed
/// (`sum`, the lowercase hexadecimal SHA-256 the caller computed), with the
/// lower-case extension `ext` of its file name.  The expected checksum (the
/// `X-Checksum` header, else the body's hash) must match; content the
/// session has seen is a duplicate; anything else is stored under
/// `<sum>.<ext>` and imported under the file's sanitised name, made unique
/// with the first 8 characters of the checksum where another file of the
/// session already uses that name.
pub fn plan_hashed_upload(
    session: &ImportSessionState,
    body: &ImportUploadBody,
    checksum_header: Option<&str>,
    ext: String,
    data: Vec<u8>,
    sum: String,
) -> (r: Result<UploadPlan, ImportError>)
    ensures
        plan_kind(r) == upload_kind(
            session.seen_hashes@,
            expected_checksum(
                match checksum_header {
                    Some(h) => Some(h@),
                    None => None,
                },
                body.hash,
            ),
            sum@,
        ),
        ({
            let expected = expected_checksum(
                match checksum_header {
                    Some(h) => Some(h@),
                    None => None,
                },
                body.hash,
            );
            if expected matches Some(e) && e != sum@ {
                r matches Err(ImportError::HashMismatch)
            } else if seen(session.seen_hashes@, sum@) {
                r matches Ok(UploadPlan::Duplicate { checksum }) && checksum@ == sum@
            } else {
                r matches Ok(UploadPlan::Store { data: d, checksum, ext: e, staging_filename, safe_name })
                    && d@ == data@ && checksum@ == sum@ && e@ == ext@ && staging_filename@ == sum@
                    + "."@ + ext@ && safe_name@ == final_safe_name(
                    session.files@,
                    body.filename@,
                    sum@,
                    ext@,
                )
            }
        }),
{
    let expected: Option<&str> = match checksum_header {
        Some(h) => Some(h),
        None => match &body.hash {
            Some(h) => Some(h.as_str()),
            None => None,
        },
    };
    if let Some(e) = expected {
        if !str_eq(sum.as_str(), e) {
            return Err(ImportError::HashMismatch);
        }
    }
    if seen_exec(&session.seen_hashes, sum.as_str()) {
        return Ok(UploadPlan::Duplicate { checksum: sum });
    }
    let mut staging = sum.clone();
    staging.append(".");
    staging.append(ext.as_str());
    let safe = sanitize_filename(body.filename.as_str());
    let safe_name = if name_taken_exec(&session.files, safe.as_str(), sum.as_str()) {
        let sc = chars_of(safe.as_str());
        let mut n = match stem_chars(sc.as_slice()) {
            Some(st) => string_of(st.as_slice()),
            None => String::from_str("track"),
        };
        n.append("_");
        let short = take_chars(sum.as_str(), 8);
        n.append(short.as_str());
        n.append(".");
        n.append(ext.as_str());
        n
    } else {
        safe
    };
    Ok(UploadPlan::Store { data, checksum: sum, ext, staging_filename: staging, safe_name })
}

/// What planning an upload gives: the checks run in this order —
/// extension, base64 data, file size, session size, checksum — and content
/// the session has seen is a duplicate.
pub open spec fn upload_planned(
    session: ImportSessionState,
    body: ImportUploadBody,
    checksum_header: Option<Seq<char>>,
    r: Result<UploadPlan, ImportError>,
) -> bool {
    if !spec_allowed_extension(body.filename@) {
        r matches Err(ImportError::InvalidExtension)
    } else {
        match base64_standard_decoded(body.data@) {
            None => r matches Err(ImportError::InvalidData),
            Some(data) => if data.len() > MAX_FILE_SIZE {
                r matches Err(ImportError::FileTooLarge)
            } else if session.total_size_bytes + data.len() > MAX_SESSION_SIZE {
                r matches Err(ImportError::SessionSizeExceeded)
            } else {
                let sum = checksum_of(data);
                let expected = expected_checksum(checksum_header, body.hash);
                if expected matches Some(e) && e != sum {
                    r matches Err(ImportError::HashMismatch)
                } else if seen(session.seen_hashes@, sum) {
                    r matches Ok(UploadPlan::Duplicate { checksum }) && checksum@ == sum
                } else {
                    let ext = upload_ext(body.filename@)->0;
                    r matches Ok(UploadPlan::Store { data: d, checksum, ext: e, staging_filename, safe_name })
                        && d@ == data && checksum@ == sum && e@ == ext && staging_filename@ == sum
                        + "."@ + ext && safe_name@ == final_safe_name(
                        session.files@,
                        body.filename@,
                        sum,
                        ext,
                    )
                }
            },
        }
    }
}

/// Checks an upload to `session` and decides what to store.  The checks
/// run in this order: extension, base64 data, file size, session size,
/// checksum; content the session has seen is a duplicate.
pub fn plan_upload(
    session: &ImportSessionState,
    body: &ImportUploadBody,
    checksum_header: Option<&str>,
) -> (r: Result<UploadPlan, ImportError>)
    ensures
        upload_planned(
            *session,
            *body,
            match checksum_header {
                Some(h) => Some(h@),
                None => None,
            },
            r,
        ),
{
    let ext = match lower_ext(body.filename.as_str()) {
        Some(e) => e,
        None => {
            return Err(ImportError::InvalidExtension);
        },
    };
    if !is_allowed_ext_text(ext.as_str()) {
        return Err(ImportError::InvalidExtension);
    }
    let data = match base64_decode(body.data.as_str()) {
        Some(d) => d,
        None => {
            return Err(ImportError::InvalidData);
        },
    };
    let size = data.len() as u64;
    if size > MAX_FILE_SIZE {
        return Err(ImportError::FileTooLarge);
    }
    if session.total_size_bytes > MAX_SESSION_SIZE - size {
        return Err(ImportError::SessionSizeExceeded);
    }
    let sum = compute_sha256(data.as_slice());
    plan_hashed_upload(session, body, checksum_header, ext, data, sum)
}

/// Counts a stored upload into its session; `remote_track_id` is the
/// library id of the imported file, when it has one.
pub fn record_upload(
    session: &mut ImportSessionState,
    body: &ImportUploadBody,
    local_track_id: Option<u128>,
    checksum: &str,
    safe_name: &str,
    staging_filename: &str,
    size: u64,
    remote_track_id: Option<u128>,
)
    requires
        old(session).imported_tracks < u32::MAX,
        old(session).total_size_bytes + size <= u64::MAX,
    ensures
        final(session).session_id == old(session).session_id,
        final(session).total_tracks == old(session).total_tracks,
        final(session).total_playlists == old(session).total_playlists,
        final(session).device_id == old(session).device_id,
        final(session).imported_tracks == old(session).imported_tracks + 1,
        final(session).total_size_bytes == old(session).total_size_bytes + size,
        final(session).seen_hashes@.len() == old(session).seen_hashes@.len() + 1,
        forall|i: int|
            0 <= i < old(session).seen_hashes@.len() ==> (#[trigger] final(session).seen_hashes@[i])@
                == old(session).seen_hashes@[i]@,
        final(session).seen_hashes@.last()@ == checksum@,
        counts_upload(*old(session), *final(session), checksum@, size),
        final(session).files@.len() == old(session).files@.len() + (if remote_track_id is Some {
            1int
        } else {
            0int
        }),
        forall|i: int|
            0 <= i < old(session).files@.len() ==> #[trigger] final(session).files@[i] == old(session).files@[i],
        remote_track_id matches Some(rid) ==> ({
            let f = final(session).files@.last();
            &&& f.local_track_id == local_track_id
            &&& f.filename@ == body.filename@
            &&& f.safe_name@ == safe_name@
            &&& f.staging_filename@ == staging_filename@
            &&& f.checksum@ == checksum@
            &&& f.size_bytes == size
            &&& f.remote_track_id == rid
        }),
{
    session.imported_tracks = session.imported_tracks + 1;
    session.total_size_bytes = session.total_size_bytes + size;
    session.seen_hashes.push(String::from_str(checksum));
    if let Some(rid) = remote_track_id {
        session.files.push(
            ImportFile {
                local_track_id,
                filename: body.filename.clone(),
                safe_name: String::from_str(safe_name),
                staging_filename: String::from_str(staging_filename),
                checksum: String::from_str(checksum),
                size_bytes: size,
                remote_track_id: rid,
            },
        );
    }
}

/// The open import sessions, at most `MAX_IMPORT_SESSIONS` of them, each
/// under its own id.
#[derive(Debug)]
pub struct ImportSessions {
    sessions: HashMap<u128, ImportSessionState>,
}

impl ImportSessions {
    /// The ids of the open sessions.
    pub closed spec fn ids(&self) -> Set<u128> {
        self.sessions@.dom()
    }

    /// The open session with this id.
    pub closed spec fn session(&self, id: u128) -> ImportSessionState {
        self.sessions@[id]
    }

    /// The limit holds and each session is kept under its own id.
    pub closed spec fn wf(&self) -> bool {
        &&& self.sessions@.dom().finite()
        &&& self.sessions@.dom().len() <= MAX_IMPORT_SESSIONS
        &&& forall|id: u128| #[trigger] self.sessions@.contains_key(id) ==> self.sessions@[id].session_id == id
    }

    /// No open session.
    pub fn new() -> (r: Self)
        ensures
            r.wf(),
            r.ids() == Set::<u128>::empty(),
    {
        let r = ImportSessions { sessions: HashMap::new() };
        proof {
            assert(r.sessions@.dom() =~= Set::<u128>::empty());
        }
        r
    }

    /// How many sessions are open.
    pub fn len(&self) -> (n: usize)
        ensures
            n == self.ids().len(),
    {
        broadcast use vstd::std_specs::hash::group_hash_axioms;

        self.sessions.len()
    }

    /// Whether a session with this id is open.
    pub fn contains(&self, id: u128) -> (r: bool)
        ensures
            r == self.ids().contains(id),
    {
        broadcast use vstd::std_specs::hash::group_hash_axioms;

        self.sessions.contains_key(&id)
    }

    /// Opens a session; refused when the limit is reached.  A session whose
    /// id is already open replaces it.
    pub fn open(&mut self, session: ImportSessionState) -> (r: Result<(), ImportError>)
        requires
            old(self).wf(),
        ensures
            final(self).wf(),
            old(self).ids().len() >= MAX_IMPORT_SESSIONS ==> (r matches Err(
                ImportError::TooManySessions,
            ) && final(self).ids() == old(self).ids()),
            old(self).ids().len() < MAX_IMPORT_SESSIONS ==> r is Ok && final(self).ids() == old(
                self,
            ).ids().insert(session.session_id) && final(self).session(session.session_id) == session,
            old(self).ids().len() < MAX_IMPORT_SESSIONS ==> forall|x: u128|
                x != session.session_id && #[trigger] old(self).ids().contains(x) ==> final(self).session(x)
                    == old(self).session(x),
    {
        broadcast use vstd::std_specs::hash::group_hash_axioms;
        broadcast use vstd::set::group_set_axioms;

        if self.sessions.len() >= MAX_IMPORT_SESSIONS {
            return Err(ImportError::TooManySessions);
        }
        let id = session.session_id;
        self.sessions.insert(id, session);
        proof {
            assert(self.sessions@.dom() =~= old(self).sessions@.dom().insert(id));
        }
        Ok(())
    }

    /// The session with this id, for reading.
    pub fn get(&self, id: u128) -> (r: Option<&ImportSessionState>)
        ensures
            match r {
                Some(s) => self.ids().contains(id) && *s == self.session(id),
                None => !self.ids().contains(id),
            },
    {
        broadcast use vstd::std_specs::hash::group_hash_axioms;

        self.sessions.get(&id)
    }

    /// Closes the session with this id, handing it back.
    pub fn close(&mut self, id: u128) -> (r: Option<ImportSessionState>)
        requires
            old(self).wf(),
        ensures
            final(self).wf(),
            final(self).ids() == old(self).ids().remove(id),
            match r {
                Some(s) => old(self).ids().contains(id) && s == old(self).session(id) && s.session_id == id,
                None => !old(self).ids().contains(id),
            },
            forall|x: u128| x != id && #[trigger] final(self).ids().contains(x) ==> final(self).session(x)
                == old(self).session(x),
    {
        broadcast use vstd::std_specs::hash::group_hash_axioms;
        broadcast use vstd::set::group_set_axioms;

        let r = self.sessions.remove(&id);
        proof {
            assert(self.sessions@.dom() =~= old(self).sessions@.dom().remove(id));
        }
        r
    }

    /// Uploads into an open session: checks and plans the upload.
    pub fn plan(&self, id: u128, body: &ImportUploadBody, checksum_header: Option<&str>) -> (r: Result<
        UploadPlan,
        ImportError,
    >)
        ensures
            !self.ids().contains(id) ==> r matches Err(ImportError::SessionNotFound),
            self.ids().contains(id) ==> upload_planned(
                self.session(id),
                *body,
                match checksum_header {
                    Some(h) => Some(h@),
                    None => None,
                },
                r,
            ),
    {
        match self.get(id) {
            Some(s) => plan_upload(s, body, checksum_header),
            None => Err(ImportError::SessionNotFound),
        }
    }

    /// Counts a stored upload into the open session `id`; false when no
    /// such session is open.  The session's counters are left as they are
    /// where they would overflow.
    pub fn record(
        &mut self,
        id: u128,
        body: &ImportUploadBody,
        local_track_id: Option<u128>,
        checksum: &str,
        safe_name: &str,
        staging_filename: &str,
        size: u64,
        remote_track_id: Option<u128>,
    ) -> (r: bool)
        requires
            old(self).wf(),
            size <= MAX_FILE_SIZE,
        ensures
            final(self).wf(),
            final(self).ids() == old(self).ids(),
            r == old(self).ids().contains(id),
            forall|x: u128| x != id && #[trigger] final(self).ids().contains(x) ==> final(self).session(x)
                == old(self).session(x),
            r && old(self).session(id).imported_tracks < u32::MAX && old(self).session(id).total_size_bytes
                <= u64::MAX - size ==> counts_upload(old(self).session(id), final(self).session(id), checksum@, size),
    {
        broadcast use vstd::std_specs::hash::group_hash_axioms;
        broadcast use vstd::set::group_set_axioms;

        match self.sessions.remove(&id) {
            Some(mut s) => {
                if s.imported_tracks < u32::MAX && s.total_size_bytes <= u64::MAX - size {
                    record_upload(
                        &mut s,
                        body,
                        local_track_id,
                        checksum,
                        safe_name,
                        staging_filename,
                        size,
                        remote_track_id,
                    );
                }
                self.sessions.insert(id, s);
                proof {
                    assert(self.sessions@.dom() =~= old(self).sessions@.dom());
                }
                true
            },
            None => false,
        }
    }
}

/// How a committed file reached the library.
#[derive(Debug, Clone, Copy, PartialEq, Eq, Structural)]
pub enum CommitStatus {
    /// The destination already held the file.
    AlreadyPresent,
    /// The file was copied in.
    Inserted,
}

impl CommitStatus {
    /// The status text of the commit mapping.
    pub fn as_str(&self) -> (s: &'static str)
        ensures
            s@ == (match self {
                CommitStatus::AlreadyPresent => "already_present"@,
                CommitStatus::Inserted => "inserted"@,
            }),
    {
        match self {
            CommitStatus::AlreadyPresent => "already_present",
            CommitStatus::Inserted => "inserted",
        }
    }
}

/// The first file whose destination already holds different content;
/// `existing[i]` is the checksum of what the `i`-th file's destination
/// holds, if it exists.
pub open spec fn first_destination_conflict(files: Seq<ImportFile>, existing: Seq<Option<String>>) -> Option<
    int,
>
    decreases files.len(),
{
    if files.len() == 0 || existing.len() == 0 {
        None
    } else if existing[0] matches Some(h) && h@ != files[0].checksum@ {
        Some(0)
    } else {
        match first_destination_conflict(files.drop_first(), existing.drop_first()) {
            Some(k) => Some(k + 1),
            None => None,
        }
    }
}

proof fn lemma_first_conflict(files: Seq<ImportFile>, existing: Seq<Option<String>>, k: int)
    requires
        files.len() == existing.len(),
        0 <= k <= files.len(),
        forall|j: int|
            0 <= j < k ==> !(#[trigger] existing[j] matches Some(h) && h@ != files[j].checksum@),
    ensures
        k < files.len() && (existing[k] matches Some(h) && h@ != files[k].checksum@)
            ==> first_destination_conflict(files, existing) == Some(k),
        k == files.len() ==> first_destination_conflict(files, existing) is None,
    decreases k,
{
    if k > 0 {
        assert forall|j: int| 0 <= j < k - 1 implies !(#[trigger] existing.drop_first()[j] matches Some(
            h,
        ) && h@ != files.drop_first()[j].checksum@) by {
            assert(existing.drop_first()[j] == existing[j + 1]);
            assert(files.drop_first()[j] == files[j + 1]);
        }
        lemma_first_conflict(files.drop_first(), existing.drop_first(), k - 1);
    }
}

/// Checks the destinations of a commit before anything is copied: the
/// first file whose destination holds different content aborts it.
pub fn check_destinations(files: &Vec<ImportFile>, existing: &Vec<Option<String>>) -> (r: Result<
    (),
    ImportError,
>)
    requires
        files@.len() == existing@.len(),
    ensures
        match first_destination_conflict(files@, existing@) {
            Some(k) => r matches Err(ImportError::DestinationConflict(n)) && n@ == files@[k].safe_name@,
            None => r is Ok,
        },
{
    let mut i: usize = 0;
    while i < files.len()
        invariant
            files@.len() == existing@.len(),
            i <= files@.len(),
            forall|j: int|
                0 <= j < i ==> !(#[trigger] existing@[j] matches Some(h) && h@ != files@[j].checksum@),
        decreases files.len() - i,
    {
        if let Some(h) = &existing[i] {
            if !str_eq(h.as_str(), files[i].checksum.as_str()) {
                proof {
                    lemma_first_conflict(files@, existing@, i as int);
                }
                return Err(ImportError::DestinationConflict(files[i].safe_name.clone()));
            }
        }
        i = i + 1;
    }
    proof {
        lemma_first_conflict(files@, existing@, i as int);
    }
    Ok(())
}

/// How each file of a commit is brought in: copied, unless its destination
/// already exists (`dest_exists[i]`).
pub fn commit_statuses(dest_exists: &Vec<bool>) -> (r: Vec<CommitStatus>)
    ensures
        r@.len() == dest_exists@.len(),
        forall|i: int|
            0 <= i < r@.len() ==> #[trigger] r@[i] == (if dest_exists@[i] {
                CommitStatus::AlreadyPresent
            } else {
                CommitStatus::Inserted
            }),
{
    let mut r: Vec<CommitStatus> = Vec::new();
    let mut i: usize = 0;
    while i < dest_exists.len()
        invariant
            i <= dest_exists@.len(),
            r@.len() == i,
            forall|k: int|
                0 <= k < i ==> #[trigger] r@[k] == (if dest_exists@[k] {
                    CommitStatus::AlreadyPresent
                } else {
                    CommitStatus::Inserted
                }),
        decreases dest_exists.len() - i,
    {
        r.push(if dest_exists[i] { CommitStatus::AlreadyPresent } else { CommitStatus::Inserted });
        i = i + 1;
    }
    r
}

/// The positions, in order, of the files among the first `upto` that a
/// commit copied in.
pub open spec fn copied_positions(statuses: Seq<CommitStatus>, upto: int) -> Seq<usize>
    decreases upto,
{
    if upto <= 0 {
        Seq::empty()
    } else {
        let before = copied_positions(statuses, upto - 1);
        if statuses[upto - 1] == CommitStatus::Inserted {
            before.push((upto - 1) as usize)
        } else {
            before
        }
    }
}

/// The files that a commit removes again when it fails after handling the
/// first `upto` files: exactly those it copied in, never one whose
/// destination held it before.  A failure while copying file `k` passes
/// `upto = k`; a failure after all copies passes the number of files.
pub fn rollback_positions(statuses: &Vec<CommitStatus>, upto: usize) -> (r: Vec<usize>)
    requires
        upto <= statuses@.len(),
    ensures
        r@ == copied_positions(statuses@, upto as int),
        forall|j: int| 0 <= j < r@.len() ==> r@[j] < upto && statuses@[r@[j] as int] == CommitStatus::Inserted,
{
    let mut r: Vec<usize> = Vec::new();
    let mut i: usize = 0;
    while i < upto
        invariant
            upto <= statuses@.len(),
            i <= upto,
            r@ == copied_positions(statuses@, i as int),
            forall|j: int| 0 <= j < r@.len() ==> r@[j] < i && statuses@[r@[j] as int] == CommitStatus::Inserted,
        decreases upto - i,
    {
        if statuses[i] == CommitStatus::Inserted {
            r.push(i);
        }
        i = i + 1;
    }
    r
}

/// The plan of a commit, in the order it runs: every destination is
/// checked before anything is copied, so a conflict (a destination holding
/// different content) refuses the commit with nothing copied and the
/// staged files kept; otherwise each file is copied in, unless its
/// destination already holds it.  (`existing[i]` is the checksum of what
/// the `i`-th file's destination holds, if it exists.)  Should a later step
/// fail, `rollback_positions` names the copies to remove, and the staged
/// files are removed only after a commit succeeds.
pub fn plan_commit(files: &Vec<ImportFile>, existing: &Vec<Option<String>>) -> (r: Result<
    Vec<CommitStatus>,
    ImportError,
>)
    requires
        files@.len() == existing@.len(),
    ensures
        match first_destination_conflict(files@, existing@) {
            Some(k) => r matches Err(ImportError::DestinationConflict(n)) && n@ == files@[k].safe_name@,
            None => r matches Ok(st) && st@.len() == files@.len() && forall|i: int|
                0 <= i < st@.len() ==> #[trigger] st@[i] == (if existing@[i] is Some {
                    CommitStatus::AlreadyPresent
                } else {
                    CommitStatus::Inserted
                }),
        },
{
    match check_destinations(files, existing) {
        Err(e) => Err(e),
        Ok(()) => {
            let mut dest_exists: Vec<bool> = Vec::new();
            let mut i: usize = 0;
            while i < existing.len()
                invariant
                    i <= existing@.len(),
                    dest_exists@.len() == i,
                    forall|k: int| 0 <= k < i ==> #[trigger] dest_exists@[k] == (existing@[k] is Some),
                decreases existing.len() - i,
            {
                dest_exists.push(existing[i].is_some());
                i = i + 1;
            }
            Ok(commit_statuses(&dest_exists))
        },
    }
}

/// One line of a commit's answer.
#[derive(Debug)]
pub struct CommitMapping {
    pub local_track_id: u128,
    pub status: CommitStatus,
    pub remote_track_id: u128,
    pub checksum: String,
}

/// The answer of a successful commit: per file, the player's id (or the
/// library id where the player sent none), how it came in, the library id
/// and the checksum.
pub fn commit_mapping(files: &Vec<ImportFile>, statuses: &Vec<CommitStatus>) -> (r: Vec<CommitMapping>)
    requires
        files@.len() == statuses@.len(),
    ensures
        r@.len() == files@.len(),
        forall|i: int|
            0 <= i < r@.len() ==> {
                &&& (#[trigger] r@[i]).local_track_id == (match files@[i].local_track_id {
                    Some(l) => l,
                    None => files@[i].remote_track_id,
                })
                &&& r@[i].status == statuses@[i]
                &&& r@[i].remote_track_id == files@[i].remote_track_id
                &&& r@[i].checksum@ == files@[i].checksum@
            },
{
    let mut r: Vec<CommitMapping> = Vec::new();
    let mut i: usize = 0;
    while i < files.len()
        invariant
            files@.len() == statuses@.len(),
            i <= files@.len(),
            r@.len() == i,
            forall|k: int|
                0 <= k < i ==> {
                    &&& (#[trigger] r@[k]).local_track_id == (match files@[k].local_track_id {
                        Some(l) => l,
                        None => files@[k].remote_track_id,
                    })
                    &&& r@[k].status == statuses@[k]
                    &&& r@[k].remote_track_id == files@[k].remote_track_id
                    &&& r@[k].checksum@ == files@[k].checksum@
                },
        decreases files.len() - i,
    {
        let f = &files[i];
        let remote = f.remote_track_id;
        r.push(
            CommitMapping {
                local_track_id: match f.local_track_id {
                    Some(l) => l,
                    None => remote,
                },
                status: statuses[i],
                remote_track_id: remote,
                checksum: f.checksum.clone(),
            },
        );
        i = i + 1;
    }
    r
}

/// The distance between two durations.
pub open spec fn duration_gap(a: u64, b: u64) -> int {
    if a >= b {
        a - b
    } else {
        b - a
    }
}

/// Whether a library track with the same content clashes with the imported
/// track `track_id` of duration `mine`.
pub open spec fn clashes(entry: (u128, Option<u64>), track_id: u128, mine: u64) -> bool {
    entry.0 != track_id && match entry.1 {
        Some(d) => duration_gap(d, mine) > 2000,
        None => false,
    }
}

/// Whether a library track has this title and a duration within (`near`) or
/// beyond two seconds of `duration`.
pub open spec fn title_matches(t: LibraryTrack, title: Seq<char>, duration: u64, near: bool) -> bool {
    match (t.title, t.duration_ms) {
        (Some(x), Some(d)) => x@ == title && (duration_gap(d, duration) < 2000) == near,
        _ => false,
    }
}

/// Whether an imported track clashes with a library track that holds the
/// same content: another id whose duration is more than two seconds off
/// (a missing duration of the imported track counts as 0).
pub fn duration_conflict(track_id: u128, duration_ms: Option<u64>, same_content: &Vec<(u128, Option<u64>)>) -> (r:
    bool)
    ensures
        r == exists|i: int|
            0 <= i < same_content@.len() && clashes(
                #[trigger] same_content@[i],
                track_id,
                match duration_ms {
                    Some(x) => x,
                    None => 0,
                },
            ),
{
    let mine: u64 = match duration_ms {
        Some(x) => x,
        None => 0,
    };
    let mut i: usize = 0;
    while i < same_content.len()
        invariant
            i <= same_content@.len(),
            mine == (match duration_ms {
                Some(x) => x,
                None => 0,
            }),
            forall|k: int| 0 <= k < i ==> !clashes(#[trigger] same_content@[k], track_id, mine),
        decreases same_content.len() - i,
    {
        let (id, d) = same_content[i];
        if id != track_id {
            if let Some(d) = d {
                let gap: u64 = if d >= mine { d - mine } else { mine - d };
                if gap > 2000 {
                    proof {
                        assert(clashes(same_content@[i as int], track_id, mine));
                    }
                    return true;
                }
            }
        }
        i = i + 1;
    }
    false
}

/// A track that a player asks about before uploading it.
#[derive(Debug)]
pub struct PreflightTrack {
    pub local_track_id: Option<u128>,
    pub content_hash: Option<String>,
    pub quick_hash: Option<String>,
    pub sha256_prefix: Option<String>,
    pub duration_ms: Option<u64>,
    pub title: Option<String>,
}

/// What preflight knows of a library track.
#[derive(Debug)]
pub struct LibraryTrack {
    pub id: u128,
    pub title: Option<String>,
    pub duration_ms: Option<u64>,
    pub content_hash: Option<String>,
}

/// How preflight judged a track.
#[derive(Debug, Clone, Copy, PartialEq, Eq, Structural)]
pub enum PreflightStatus {
    AlreadyPresent,
    Conflict,
    NeedsUpload,
}

/// By which evidence preflight matched a track.
#[derive(Debug, Clone, Copy, PartialEq, Eq, Structural)]
pub enum MatchKind {
    ExactHash,
    QuickHash,
    Sha256Prefix,
    MetadataDuration,
    Nothing,
}

/// The answer for one track.
#[derive(Debug, Clone, Copy, PartialEq, Eq, Structural)]
pub struct PreflightResult {
    pub local_track_id: Option<u128>,
    pub status: PreflightStatus,
    pub remote_track_id: Option<u128>,
    pub match_kind: MatchKind,
}

/// The first library track whose content hash begins with `prefix`.
pub open spec fn first_hash_prefix(library: Seq<LibraryTrack>, prefix: Seq<char>) -> Option<u128>
    decreases library.len(),
{
    if library.len() == 0 {
        None
    } else if library[0].content_hash matches Some(h) && prefix.is_prefix_of(h@) {
        Some(library[0].id)
    } else {
        first_hash_prefix(library.drop_first(), prefix)
    }
}

/// The first library track with this title whose duration is within
/// (`near`) or beyond two seconds of `duration`.
pub open spec fn first_by_title(library: Seq<LibraryTrack>, title: Seq<char>, duration: u64, near: bool) -> Option<
    u128,
>
    decreases library.len(),
{
    if library.len() == 0 {
        None
    } else if title_matches(library[0], title, duration, near) {
        Some(library[0].id)
    } else {
        first_by_title(library.drop_first(), title, duration, near)
    }
}

fn find_hash_prefix(library: &Vec<LibraryTrack>, prefix: &str) -> (r: Option<u128>)
    ensures
        r == first_hash_prefix(library@, prefix@),
{
    let mut i: usize = 0;
    proof {
        assert(library@.skip(0) =~= library@);
    }
    while i < library.len()
        invariant
            i <= library@.len(),
            first_hash_prefix(library@, prefix@) == first_hash_prefix(library@.skip(i as int), prefix@),
        decreases library.len() - i,
    {
        proof {
            assert(library@.skip(i as int).drop_first() =~= library@.skip(i as int + 1));
            assert(library@.skip(i as int)[0] == library@[i as int]);
        }
        if let Some(h) = &library[i].content_hash {
            if crate::text::starts_with(h.as_str(), prefix) {
                return Some(library[i].id);
            }
        }
        i = i + 1;
    }
    proof {
        assert(library@.skip(i as int) =~= Seq::<LibraryTrack>::empty());
    }
    None
}

fn find_by_title(library: &Vec<LibraryTrack>, title: &str, duration: u64, near: bool) -> (r: Option<u128>)
    ensures
        r == first_by_title(library@, title@, duration, near),
{
    let mut i: usize = 0;
    proof {
        assert(library@.skip(0) =~= library@);
    }
    while i < library.len()
        invariant
            i <= library@.len(),
            first_by_title(library@, title@, duration, near) == first_by_title(
                library@.skip(i as int),
                title@,
                duration,
                near,
            ),
        decreases library.len() - i,
    {
        proof {
            assert(library@.skip(i as int).drop_first() =~= library@.skip(i as int + 1));
            assert(library@.skip(i as int)[0] == library@[i as int]);
        }
        if let Some(t) = &library[i].title {
            if str_eq(t.as_str(), title) {
                if let Some(d) = library[i].duration_ms {
                    let gap: u64 = if d >= duration { d - duration } else { duration - d };
                    if (gap < 2000) == near {
                        return Some(library[i].id);
                    }
                }
            }
        }
        i = i + 1;
    }
    proof {
        assert(library@.skip(i as int) =~= Seq::<LibraryTrack>::empty());
    }
    None
}

/// The answer of preflight for a track: an exact content-hash match (found
/// by the caller, `exact`), else a library hash beginning with the quick
/// hash, else one beginning with the SHA-256 prefix, else a track with the
/// same title within two seconds; failing all, a same-titled track further
/// off is a conflict, and anything else needs an upload.
pub open spec fn spec_preflight(track: PreflightTrack, exact: Option<u128>, library: Seq<LibraryTrack>) -> PreflightResult {
    let quick = match track.quick_hash {
        Some(q) => first_hash_prefix(library, q@),
        None => None,
    };
    let by_prefix = match track.sha256_prefix {
        Some(p) => first_hash_prefix(library, p@),
        None => None,
    };
    let by_title = |near: bool|
        match (track.title, track.duration_ms) {
            (Some(t), Some(d)) => first_by_title(library, t@, d, near),
            _ => None,
        };
    let present = |id: u128, kind: MatchKind|
        PreflightResult {
            local_track_id: track.local_track_id,
            status: PreflightStatus::AlreadyPresent,
            remote_track_id: Some(id),
            match_kind: kind,
        };
    match exact {
        Some(id) => present(id, MatchKind::ExactHash),
        None => match quick {
            Some(id) => present(id, MatchKind::QuickHash),
            None => match by_prefix {
                Some(id) => present(id, MatchKind::Sha256Prefix),
                None => match by_title(true) {
                    Some(id) => present(id, MatchKind::MetadataDuration),
                    None => match by_title(false) {
                        Some(id) => PreflightResult {
                            local_track_id: track.local_track_id,
                            status: PreflightStatus::Conflict,
                            remote_track_id: Some(id),
                            match_kind: MatchKind::MetadataDuration,
                        },
                        None => PreflightResult {
                            local_track_id: track.local_track_id,
                            status: PreflightStatus::NeedsUpload,
                            remote_track_id: None,
                            match_kind: MatchKind::Nothing,
                        },
                    },
                },
            },
        },
    }
}

/// Judges one preflight track against the library.
pub fn preflight(track: &PreflightTrack, exact: Option<u128>, library: &Vec<LibraryTrack>) -> (r:
    PreflightResult)
    ensures
        r == spec_preflight(*track, exact, library@),
{
    let present = |id: u128, kind: MatchKind| -> (p: PreflightResult)
        ensures
            p == (PreflightResult {
                local_track_id: track.local_track_id,
                status: PreflightStatus::AlreadyPresent,
                remote_track_id: Some(id),
                match_kind: kind,
            }),
        {
            PreflightResult {
                local_track_id: track.local_track_id,
                status: PreflightStatus::AlreadyPresent,
                remote_track_id: Some(id),
                match_kind: kind,
            }
        };
    if let Some(id) = exact {
        return present(id, MatchKind::ExactHash);
    }
    if let Some(q) = &track.quick_hash {
        if let Some(id) = find_hash_prefix(library, q.as_str()) {
            return present(id, MatchKind::QuickHash);
        }
    }
    if let Some(p) = &track.sha256_prefix {
        if let Some(id) = find_hash_prefix(library, p.as_str()) {
            return present(id, MatchKind::Sha256Prefix);
        }
    }
    if let (Some(t), Some(d)) = (&track.title, track.duration_ms) {
        if let Some(id) = find_by_title(library, t.as_str(), d, true) {
            return present(id, MatchKind::MetadataDuration);
        }
        if let Some(id) = find_by_title(library, t.as_str(), d, false) {
            return PreflightResult {
                local_track_id: track.local_track_id,
                status: PreflightStatus::Conflict,
                remote_track_id: Some(id),
                match_kind: MatchKind::MetadataDuration,
            };
        }
    }
    PreflightResult {
        local_track_id: track.local_track_id,
        status: PreflightStatus::NeedsUpload,
        remote_track_id: None,
        match_kind: MatchKind::Nothing,
    }
}

/// SHA-256 dedup on upload: once an upload of content with checksum `sum`
/// was recorded into a session, an upload of the same content is answered
/// as a duplicate (unless the checksum it declares differs), and the
/// recording counted the first upload once, with its size.  New content is
/// stored.
pub proof fn law_second_upload_is_duplicate(
    before: ImportSessionState,
    after: ImportSessionState,
    sum: Seq<char>,
    size: u64,
    expected: Option<Seq<char>>,
)
    requires
        counts_upload(before, after, sum, size),
    ensures
        !seen(before.seen_hashes@, sum) && !(expected matches Some(e) && e != sum) ==> upload_kind(
            before.seen_hashes@,
            expected,
            sum,
        ) == UploadKind::Store,
        upload_kind(after.seen_hashes@, expected, sum) == (if expected matches Some(e) && e != sum {
            UploadKind::Mismatch
        } else {
            UploadKind::Duplicate
        }),
        after.imported_tracks == before.imported_tracks + 1,
        after.total_size_bytes == before.total_size_bytes + size,
{
    let n = after.seen_hashes@.len() - 1;
    assert(after.seen_hashes@[n]@ == sum);
    assert(seen(after.seen_hashes@, sum));
}

/// Content that a session recorded is known to it afterwards: another
/// upload of the same content is answered as a duplicate and not stored
/// again.
pub proof fn law_recorded_content_is_seen(hashes: Seq<String>, checksum: Seq<char>)
    requires
        hashes.len() > 0,
        hashes.last()@ == checksum,
    ensures
        seen(hashes, checksum),
{
    assert(hashes[hashes.len() - 1]@ == checksum);
}

} // verus!
