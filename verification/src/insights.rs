//! Artist and album insights: reading the name or key in the path, the
//! span of an artist's active years, and the issues and health score of an
//! album.
use vstd::prelude::*;
use vstd::string::StringExecFns;

use crate::deps::{url_decode, url_decoded};
use crate::text::{append_decimal, append_signed, decimal, find_str, occurs_at, signed_decimal, substring};

verus! {

/// An error answer of the insight endpoints: HTTP status, code, message.
#[derive(Debug)]
pub struct InsightsError {
    pub status: u16,
    pub code: String,
    pub message: String,
}

/// An artist name as it stands in the path, decoded.  A name that does not
/// decode is refused with `400 INVALID_ARTIST_NAME`.
pub fn artist_name(raw: &str) -> (r: Result<String, InsightsError>)
    ensures
        match url_decoded(raw@) {
            Some(d) => r matches Ok(n) && n@ == d,
            None => r matches Err(e) && e.status == 400 && e.code@ == "INVALID_ARTIST_NAME"@
                && e.message@ == "url decode failed"@,
        },
{
    match url_decode(raw) {
        Some(d) => Ok(d),
        None => Err(InsightsError {
            status: 400,
            code: String::from_str("INVALID_ARTIST_NAME"),
            message: String::from_str("url decode failed"),
        }),
    }
}

/// An album key split at its first separator: album artist and album.
pub open spec fn album_key_parts(key: Seq<char>) -> Option<(Seq<char>, Seq<char>)> {
    if exists|i: int| occurs_at(key, "|||"@, i) {
        let i = choose|i: int| occurs_at(key, "|||"@, i) && forall|k: int| 0 <= k < i ==> !occurs_at(key, "|||"@, k);
        Some((key.subrange(0, i), key.subrange(i + 3, key.len() as int)))
    } else {
        None
    }
}

/// The album artist and album named by an album key in the path: the key
/// decoded, then split at its first `|||`.  A key that does not decode is
/// refused with `400 INVALID_ALBUM_KEY`, one without the separator with
/// `400 INVALID_FORMAT`.
pub fn album_key(raw: &str) -> (r: Result<(String, String), InsightsError>)
    ensures
        match url_decoded(raw@) {
            None => r matches Err(e) && e.status == 400 && e.code@ == "INVALID_ALBUM_KEY"@
                && e.message@ == "url decode failed"@,
            Some(d) => match album_key_parts(d) {
                Some((artist, album)) => r matches Ok(p) && p.0@ == artist && p.1@ == album,
                None => r matches Err(e) && e.status == 400 && e.code@ == "INVALID_FORMAT"@
                    && e.message@ == "use artist|||album format"@,
            },
        },
{
    let d = match url_decode(raw) {
        Some(d) => d,
        None => {
            return Err(InsightsError {
                status: 400,
                code: String::from_str("INVALID_ALBUM_KEY"),
                message: String::from_str("url decode failed"),
            });
        },
    };
    proof {
        reveal_strlit("|||");
    }
    match find_str(d.as_str(), "|||") {
        Some(i) => {
            let n = d.as_str().unicode_len();
            let artist = substring(d.as_str(), 0, i);
            let album = substring(d.as_str(), i + 3, n);
            Ok((artist, album))
        },
        None => Err(InsightsError {
            status: 400,
            code: String::from_str("INVALID_FORMAT"),
            message: String::from_str("use artist|||album format"),
        }),
    }
}

/// The years an artist was active, from the earliest and latest year of
/// their tracks: `earliest–latest` when they differ, the one year when only
/// the earliest is known or both are the same, else `Unknown`.
pub open spec fn active_years_text(earliest: Option<i32>, latest: Option<i32>) -> Seq<char> {
    match (earliest, latest) {
        (Some(e), Some(l)) => if e != l {
            signed_decimal(e as int) + "–"@ + signed_decimal(l as int)
        } else {
            signed_decimal(e as int)
        },
        (Some(e), None) => signed_decimal(e as int),
        _ => "Unknown"@,
    }
}

/// The years an artist was active.
pub fn active_years(earliest: Option<i32>, latest: Option<i32>) -> (s: String)
    ensures
        s@ == active_years_text(earliest, latest),
{
    match earliest {
        Some(e) => {
            let mut s = String::new();
            append_signed(&mut s, e as i64);
            match latest {
                Some(l) => if e != l {
                    s.append("–");
                    append_signed(&mut s, l as i64);
                },
                None => {},
            }
            s
        },
        None => String::from_str("Unknown"),
    }
}

/// The issues found in an album and its health score.
#[derive(Debug)]
pub struct AlbumIssues {
    pub issues: Vec<String>,
    pub health_score: i64,
}

/// The issues of an album with `missing_cover` tracks without artwork and
/// `missing_year` tracks without a year, each named when there is any.
pub open spec fn album_issue_texts(missing_cover: i64, missing_year: i64) -> Seq<Seq<char>> {
    let cover: Seq<Seq<char>> = if missing_cover > 0 {
        seq![decimal(missing_cover as nat) + " tracks missing cover art"@]
    } else {
        Seq::empty()
    };
    if missing_year > 0 {
        cover.push(decimal(missing_year as nat) + " tracks missing year"@)
    } else {
        cover
    }
}

/// The health score for a number of issues: 100 with none, and a third of
/// that taken off for each, rounded: 67 with one, 33 with two.
pub open spec fn health_score_for(issues: nat) -> i64 {
    if issues == 0 {
        100
    } else if issues == 1 {
        67
    } else {
        33
    }
}

/// The issues and health score of an album.
pub fn album_issues(missing_cover: i64, missing_year: i64) -> (r: AlbumIssues)
    ensures
        r.issues@.map_values(|s: String| s@) == album_issue_texts(missing_cover, missing_year),
        r.health_score == health_score_for(r.issues@.len()),
        r.issues@.len() <= 2,
{
    let mut issues: Vec<String> = Vec::new();
    if missing_cover > 0 {
        let mut m = String::new();
        append_decimal(&mut m, missing_cover as u64);
        m.append(" tracks missing cover art");
        issues.push(m);
    }
    if missing_year > 0 {
        let mut m = String::new();
        append_decimal(&mut m, missing_year as u64);
        m.append(" tracks missing year");
        issues.push(m);
    }
    proof {
        assert(issues@.map_values(|s: String| s@) =~= album_issue_texts(missing_cover, missing_year));
    }
    let score: i64 = if issues.len() == 0 {
        100
    } else if issues.len() == 1 {
        67
    } else {
        33
    };
    AlbumIssues { issues, health_score: score }
}

} // verus!
