//! The library endpoints: the checks before a scan, paging and search
//! input, the error answers, playlist names and the artwork lookup.
use vstd::prelude::*;
use vstd::string::StringExecFns;

use crate::deps::{infer_mime, inferred_mime};
use crate::paths::{join, join_path};
use crate::text::{append_decimal, chars_of, decimal, string_of, trim, trim_chars};

verus! {

/// The answer to a finished scan.
#[derive(Debug)]
pub struct ScanResponse {
    pub status: String,
    pub scanned: usize,
    pub saved: usize,
}

/// An error answer of the library endpoints.
#[derive(Debug)]
pub struct ErrorResponse {
    pub status: String,
    pub message: String,
}

/// The answer to a deletion.
#[derive(Debug)]
pub struct DeleteResponse {
    pub deleted: bool,
}

/// The answer to a purge of the library.
#[derive(Debug)]
pub struct PurgeResponse {
    pub deleted: usize,
}

/// Paging of the track list.
#[derive(Debug)]
pub struct TracksQuery {
    pub limit: Option<i64>,
    pub offset: Option<i64>,
}

/// A search request.
#[derive(Debug)]
pub struct SearchParams {
    pub q: String,
}

/// A playlist to import from M3U text.
#[derive(Debug)]
pub struct ImportPlaylistInput {
    pub name: String,
    pub content: String,
}

/// An error answer with message `message`.
pub fn error_response(message: String) -> (r: ErrorResponse)
    ensures
        r.status@ == "error"@,
        r.message@ == message@,
{
    ErrorResponse { status: String::from_str("error"), message }
}

/// The answer to a failed database call.
pub fn database_error(detail: &str) -> (r: ErrorResponse)
    ensures
        r.status@ == "error"@,
        r.message@ == "database error: "@ + detail@,
{
    let mut m = String::from_str("database error: ");
    m.append(detail);
    error_response(m)
}

/// A configured music directory as the scan sees it.
#[derive(Debug)]
pub struct MusicPath {
    pub display: String,
    pub exists: bool,
    pub is_dir: bool,
}

/// The first music directory that is missing or no directory.
pub open spec fn first_bad_path(paths: Seq<MusicPath>) -> Option<int>
    decreases paths.len(),
{
    if paths.len() == 0 {
        None
    } else if !paths[0].exists || !paths[0].is_dir {
        Some(0)
    } else {
        match first_bad_path(paths.drop_first()) {
            Some(k) => Some(k + 1),
            None => None,
        }
    }
}

proof fn lemma_first_bad_path(paths: Seq<MusicPath>, k: int)
    requires
        0 <= k <= paths.len(),
        forall|j: int| 0 <= j < k ==> (#[trigger] paths[j]).exists && paths[j].is_dir,
    ensures
        k < paths.len() && (!paths[k].exists || !paths[k].is_dir) ==> first_bad_path(paths) == Some(k),
        k == paths.len() ==> first_bad_path(paths) is None,
    decreases k,
{
    if k > 0 {
        assert forall|j: int| 0 <= j < k - 1 implies (#[trigger] paths.drop_first()[j]).exists
            && paths.drop_first()[j].is_dir by {
            assert(paths.drop_first()[j] == paths[j + 1]);
        }
        lemma_first_bad_path(paths.drop_first(), k - 1);
    }
}

/// Checks the music directories before a scan: there must be one, and each
/// must exist and be a directory.  Gives the HTTP status and the answer.
pub fn check_music_paths(paths: &Vec<MusicPath>) -> (r: Result<(), (u16, ErrorResponse)>)
    ensures
        paths@.len() == 0 ==> (r matches Err((s, e)) && s == 400 && e.message@
            == "no music paths configured"@),
        paths@.len() > 0 ==> match first_bad_path(paths@) {
            None => r is Ok,
            Some(k) => if !paths@[k].exists {
                r matches Err((s, e)) && s == 404 && e.message@ == "music path not found: "@
                    + paths@[k].display@
            } else {
                r matches Err((s, e)) && s == 400 && e.message@ == "music path is not a directory: "@
                    + paths@[k].display@
            },
        },
{
    if paths.len() == 0 {
        return Err((400, error_response(String::from_str("no music paths configured"))));
    }
    let mut i: usize = 0;
    while i < paths.len()
        invariant
            i <= paths@.len(),
            forall|j: int| 0 <= j < i ==> (#[trigger] paths@[j]).exists && paths@[j].is_dir,
        decreases paths.len() - i,
    {
        if !paths[i].exists {
            proof {
                lemma_first_bad_path(paths@, i as int);
            }
            let mut m = String::from_str("music path not found: ");
            m.append(paths[i].display.as_str());
            return Err((404, error_response(m)));
        }
        if !paths[i].is_dir {
            proof {
                lemma_first_bad_path(paths@, i as int);
            }
            let mut m = String::from_str("music path is not a directory: ");
            m.append(paths[i].display.as_str());
            return Err((400, error_response(m)));
        }
        i = i + 1;
    }
    proof {
        lemma_first_bad_path(paths@, i as int);
    }
    Ok(())
}

/// The event broadcast when a scan is done.
pub fn scan_done_event(scanned: usize, saved: usize) -> (s: String)
    ensures
        s@ == "{\"type\":\"scan_done\",\"scanned\":"@ + decimal(scanned as nat) + ",\"saved\":"@
            + decimal(saved as nat) + "}"@,
{
    let mut s = String::from_str("{\"type\":\"scan_done\",\"scanned\":");
    append_decimal(&mut s, scanned as u64);
    s.append(",\"saved\":");
    append_decimal(&mut s, saved as u64);
    s.append("}");
    s
}

/// The page of tracks asked for: without a limit, all tracks; with one, at
/// most 500 and at least 1 from a non-negative offset.
pub fn page_bounds(q: &TracksQuery) -> (r: Option<(i64, i64)>)
    ensures
        match q.limit {
            None => r is None,
            Some(l) => r == Some((
                if l < 1 {
                    1i64
                } else if l > 500 {
                    500i64
                } else {
                    l
                },
                match q.offset {
                    Some(o) => if o > 0 {
                        o
                    } else {
                        0i64
                    },
                    None => 0i64,
                },
            )),
        },
{
    match q.limit {
        None => None,
        Some(l) => {
            let limit: i64 = if l < 1 {
                1
            } else if l > 500 {
                500
            } else {
                l
            };
            let offset: i64 = match q.offset {
                Some(o) => if o > 0 {
                    o
                } else {
                    0
                },
                None => 0,
            };
            Some((limit, offset))
        },
    }
}

/// The text searched for: the query trimmed; a blank query searches
/// nothing.
pub fn search_term(p: &SearchParams) -> (r: Option<String>)
    ensures
        trim(p.q@).len() == 0 ==> r is None,
        trim(p.q@).len() > 0 ==> (r matches Some(t) && t@ == trim(p.q@)),
{
    let t = trim_chars(chars_of(p.q.as_str()).as_slice());
    if t.len() == 0 {
        None
    } else {
        Some(string_of(t.as_slice()))
    }
}

/// The name of a new playlist: the given one, trimmed; a blank one is
/// refused with `playlist name is required`.
pub fn playlist_name(name: &str) -> (r: Result<String, ErrorResponse>)
    ensures
        trim(name@).len() == 0 ==> (r matches Err(e) && e.message@ == "playlist name is required"@),
        trim(name@).len() > 0 ==> (r matches Ok(n) && n@ == trim(name@)),
{
    let t = trim_chars(chars_of(name).as_slice());
    if t.len() == 0 {
        Err(error_response(String::from_str("playlist name is required")))
    } else {
        Ok(string_of(t.as_slice()))
    }
}

/// The description of a playlist imported from M3U.
pub fn import_description(matched: usize, total: usize) -> (s: String)
    ensures
        s@ == "Imported from M3U ("@ + decimal(matched as nat) + " of "@ + decimal(total as nat)
            + " tracks matched)"@,
{
    let mut s = String::from_str("Imported from M3U (");
    append_decimal(&mut s, matched as u64);
    s.append(" of ");
    append_decimal(&mut s, total as u64);
    s.append(" tracks matched)");
    s
}

/// Where artwork for a track may be found: an absolute file path stands for
/// itself; a relative one is looked up under each music directory.
pub open spec fn artwork_candidates_spec(file_path: Seq<char>, music_paths: Seq<String>) -> Seq<Seq<char>> {
    if file_path.len() > 0 && file_path[0] == '/' {
        seq![file_path]
    } else {
        music_paths.map_values(|m: String| join(m@, file_path))
    }
}

/// Where artwork for a track may be found, in the order to try.
pub fn artwork_candidates(file_path: &str, music_paths: &Vec<String>) -> (r: Vec<String>)
    ensures
        r@.map_values(|s: String| s@) == artwork_candidates_spec(file_path@, music_paths@),
{
    let cs = chars_of(file_path);
    let mut r: Vec<String> = Vec::new();
    if cs.len() > 0 && cs[0] == '/' {
        r.push(String::from_str(file_path));
        proof {
            assert(r@.map_values(|s: String| s@) =~= seq![file_path@]);
        }
        return r;
    }
    let mut i: usize = 0;
    while i < music_paths.len()
        invariant
            cs@ == file_path@,
            !(cs@.len() > 0 && cs@[0] == '/'),
            i <= music_paths@.len(),
            r@.map_values(|s: String| s@) =~= music_paths@.take(i as int).map_values(
                |m: String| join(m@, file_path@),
            ),
        decreases music_paths.len() - i,
    {
        let p = join_path(music_paths[i].as_str(), file_path);
        let ghost before = r@.map_values(|s: String| s@);
        r.push(p);
        proof {
            assert(music_paths@.take(i as int + 1) =~= music_paths@.take(i as int).push(
                music_paths@[i as int],
            ));
            assert(r@.map_values(|s: String| s@) =~= before.push(p@));
        }
        i = i + 1;
    }
    proof {
        assert(music_paths@.take(music_paths@.len() as int) =~= music_paths@);
    }
    r
}

/// The media type of artwork bytes: what their signature tells, else JPEG.
pub fn artwork_mime(data: &[u8]) -> (r: &'static str)
    ensures
        r@ == (match inferred_mime(data@) {
            Some(m) => m,
            None => "image/jpeg"@,
        }),
{
    match infer_mime(data) {
        Some(m) => m,
        None => "image/jpeg",
    }
}

} // verus!
