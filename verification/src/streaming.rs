//! Streaming and the server's self-description: how a refused stream is
//! answered, the headers of a download, and the features the server
//! announces.
use vstd::prelude::*;
use vstd::string::StringExecFns;

use crate::deps::{uuid_string, uuid_text};
use crate::sources::SourceError;
use crate::text::{starts_with, str_eq, trim, trimmed};

verus! {

/// The format a client asks a stream in.
#[derive(Debug)]
pub struct StreamQuery {
    pub format: Option<String>,
}

/// The error codes of a stream that cannot be resolved.
#[derive(Debug, Clone, Copy, PartialEq, Eq, Structural)]
pub enum StreamErrorCode {
    TranscodingForbiddenByPolicy,
    TranscodingDisabled,
    InvalidStreamProfile,
    UnsupportedTranscodePlan,
    StreamResolutionError,
}

/// The text of an error code.
pub open spec fn stream_code_text(c: StreamErrorCode) -> Seq<char> {
    match c {
        StreamErrorCode::TranscodingForbiddenByPolicy => "TRANSCODING_FORBIDDEN_BY_POLICY"@,
        StreamErrorCode::TranscodingDisabled => "TRANSCODING_DISABLED"@,
        StreamErrorCode::InvalidStreamProfile => "INVALID_STREAM_PROFILE"@,
        StreamErrorCode::UnsupportedTranscodePlan => "UNSUPPORTED_TRANSCODE_PLAN"@,
        StreamErrorCode::StreamResolutionError => "STREAM_RESOLUTION_ERROR"@,
    }
}

impl StreamErrorCode {
    /// The code's text.
    pub fn as_str(&self) -> (s: &'static str)
        ensures
            s@ == stream_code_text(*self),
    {
        match self {
            StreamErrorCode::TranscodingForbiddenByPolicy => "TRANSCODING_FORBIDDEN_BY_POLICY",
            StreamErrorCode::TranscodingDisabled => "TRANSCODING_DISABLED",
            StreamErrorCode::InvalidStreamProfile => "INVALID_STREAM_PROFILE",
            StreamErrorCode::UnsupportedTranscodePlan => "UNSUPPORTED_TRANSCODE_PLAN",
            StreamErrorCode::StreamResolutionError => "STREAM_RESOLUTION_ERROR",
        }
    }
}

/// The code of a refused stream, read from the start of the resolver's
/// message; a message that starts with no known code is a
/// `STREAM_RESOLUTION_ERROR`.  Each is answered with `400`.
pub open spec fn stream_error_code_of(message: Seq<char>) -> StreamErrorCode {
    if "TRANSCODING_FORBIDDEN_BY_POLICY"@.is_prefix_of(message) {
        StreamErrorCode::TranscodingForbiddenByPolicy
    } else if "TRANSCODING_DISABLED"@.is_prefix_of(message) {
        StreamErrorCode::TranscodingDisabled
    } else if "INVALID_STREAM_PROFILE"@.is_prefix_of(message) {
        StreamErrorCode::InvalidStreamProfile
    } else if "UNSUPPORTED_TRANSCODE_PLAN"@.is_prefix_of(message) {
        StreamErrorCode::UnsupportedTranscodePlan
    } else {
        StreamErrorCode::StreamResolutionError
    }
}

/// The code of a refused stream.
pub fn stream_error_code(message: &str) -> (c: StreamErrorCode)
    ensures
        c == stream_error_code_of(message@),
{
    if starts_with(message, "TRANSCODING_FORBIDDEN_BY_POLICY") {
        StreamErrorCode::TranscodingForbiddenByPolicy
    } else if starts_with(message, "TRANSCODING_DISABLED") {
        StreamErrorCode::TranscodingDisabled
    } else if starts_with(message, "INVALID_STREAM_PROFILE") {
        StreamErrorCode::InvalidStreamProfile
    } else if starts_with(message, "UNSUPPORTED_TRANSCODE_PLAN") {
        StreamErrorCode::UnsupportedTranscodePlan
    } else {
        StreamErrorCode::StreamResolutionError
    }
}

/// The file name a track is served under: its id and its format's
/// extension.
pub fn stream_filename(id: u128, extension: &str) -> (s: String)
    ensures
        s@ == uuid_text(id) + "."@ + extension@,
{
    let mut s = uuid_string(id);
    s.append(".");
    s.append(extension);
    s
}

/// The `Content-Disposition` header of a served file.
pub fn content_disposition(kind: &str, filename: &str) -> (s: String)
    ensures
        s@ == kind@ + "; filename=\""@ + filename@ + "\""@,
{
    let mut s = String::from_str(kind);
    s.append("; filename=\"");
    s.append(filename);
    s.append("\"");
    s
}

/// Whether the streaming module is among the disabled modules, in which
/// case streams and downloads are answered `503 MODULE_DISABLED`.
pub fn streaming_disabled(disabled: &Vec<String>) -> (r: bool)
    ensures
        r == exists|i: int| 0 <= i < disabled.len() && disabled@[i]@ == "stream"@,
{
    has_name(disabled, "stream")
}

/// Whether `names` holds `name`.
pub fn has_name(names: &Vec<String>, name: &str) -> (r: bool)
    ensures
        r == exists|i: int| 0 <= i < names.len() && names@[i]@ == name@,
{
    let mut i: usize = 0;
    while i < names.len()
        invariant
            i <= names.len(),
            forall|j: int| 0 <= j < i ==> names@[j]@ != name@,
        decreases names.len() - i,
    {
        if str_eq(names[i].as_str(), name) {
            return true;
        }
        i = i + 1;
    }
    false
}

// ── What the server announces ─────────────────────────────────────

/// How clients authenticate.
#[derive(Debug)]
pub struct V1AuthInfo {
    pub required: bool,
    pub strategy: String,
    pub token_refresh: bool,
}

impl V1AuthInfo {
    /// The server's answer: authentication by server code is required, and
    /// tokens can be refreshed.
    pub fn server_code() -> (a: V1AuthInfo)
        ensures
            a.required,
            a.strategy@ == "SERVER_CODE"@,
            a.token_refresh,
    {
        V1AuthInfo { required: true, strategy: String::from_str("SERVER_CODE"), token_refresh: true }
    }
}

/// The features the server announces.
#[derive(Debug)]
pub struct V1Features {
    pub library: bool,
    pub search: bool,
    pub streaming: bool,
    pub download: bool,
    pub artwork: bool,
    pub playlists: bool,
    pub sync_manifest: bool,
    pub import: bool,
    pub playback: bool,
    pub queue: bool,
    pub receivers: bool,
    pub rooms: bool,
    pub events: bool,
    pub transcoding: bool,
    pub token_refresh: bool,
}

/// Whether `name` is among the enabled capabilities.
pub open spec fn enabled_in(names: Seq<String>, name: Seq<char>) -> bool {
    exists|i: int| 0 <= i < names.len() && names[i]@ == name
}

impl V1Features {
    /// The features, each announced when the capability it rests on is
    /// enabled; `streaming` rests on `stream` and `sync_manifest` on `sync`,
    /// the others on the capability of their own name.
    pub fn from_enabled(names: &Vec<String>) -> (f: V1Features)
        ensures
            f.library == enabled_in(names@, "library"@),
            f.search == enabled_in(names@, "search"@),
            f.streaming == enabled_in(names@, "stream"@),
            f.download == enabled_in(names@, "download"@),
            f.artwork == enabled_in(names@, "artwork"@),
            f.playlists == enabled_in(names@, "playlists"@),
            f.sync_manifest == enabled_in(names@, "sync"@),
            f.import == enabled_in(names@, "import"@),
            f.playback == enabled_in(names@, "playback"@),
            f.queue == enabled_in(names@, "queue"@),
            f.receivers == enabled_in(names@, "receivers"@),
            f.rooms == enabled_in(names@, "rooms"@),
            f.events == enabled_in(names@, "events"@),
            f.transcoding == enabled_in(names@, "transcoding"@),
            f.token_refresh == enabled_in(names@, "token_refresh"@),
    {
        V1Features {
            library: has_name(names, "library"),
            search: has_name(names, "search"),
            streaming: has_name(names, "stream"),
            download: has_name(names, "download"),
            artwork: has_name(names, "artwork"),
            playlists: has_name(names, "playlists"),
            sync_manifest: has_name(names, "sync"),
            import: has_name(names, "import"),
            playback: has_name(names, "playback"),
            queue: has_name(names, "queue"),
            receivers: has_name(names, "receivers"),
            rooms: has_name(names, "rooms"),
            events: has_name(names, "events"),
            transcoding: has_name(names, "transcoding"),
            token_refresh: has_name(names, "token_refresh"),
        }
    }
}


// ── Announcements ─────────────────────────────────────────────────

/// An announcement to play over the current playback.
#[derive(Debug)]
pub struct Announcement {
    /// How playback makes way for it; `pause` unless the request says
    /// otherwise.
    pub mode: String,
    /// Whether the current playback is paused for it.
    pub pause: bool,
}

/// Checks an announcement request: a blank URL, or one that is not HTTP,
/// is refused with `400 VALIDATION`.  Playback pauses when the mode is
/// `pause`, which it is when none is given.
pub fn check_announcement(url: &str, mode: Option<String>) -> (r: Result<Announcement, SourceError>)
    ensures
        trim(url@).len() == 0 ==> (r matches Err(e) && e.status == 400 && e.code@ == "VALIDATION"@
            && e.message@ == "url is required"@),
        trim(url@).len() > 0 && !"http://"@.is_prefix_of(url@) && !"https://"@.is_prefix_of(url@)
            ==> (r matches Err(e) && e.status == 400 && e.code@ == "VALIDATION"@
            && e.message@ == "url must be http/https"@),
        trim(url@).len() > 0 && ("http://"@.is_prefix_of(url@) || "https://"@.is_prefix_of(url@))
            ==> (r matches Ok(a) && a.mode@ == (match mode { Some(m) => m@, None => "pause"@ })
            && a.pause == (a.mode@ == "pause"@)),
{
    let t = trimmed(url);
    if t.as_str().unicode_len() == 0 {
        return Err(SourceError {
            status: 400,
            code: String::from_str("VALIDATION"),
            message: String::from_str("url is required"),
        });
    }
    if !starts_with(url, "http://") && !starts_with(url, "https://") {
        return Err(SourceError {
            status: 400,
            code: String::from_str("VALIDATION"),
            message: String::from_str("url must be http/https"),
        });
    }
    let m = match mode {
        Some(m) => m,
        None => String::from_str("pause"),
    };
    let pause = str_eq(m.as_str(), "pause");
    Ok(Announcement { mode: m, pause })
}

} // verus!
