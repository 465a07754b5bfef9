//! Playlists, smart playlists, radio stations and search: the checks on a
//! request, the selection of tracks by rule and the merge of an update.
use vstd::prelude::*;
use vstd::string::StringExecFns;

use crate::deps::{parse_uuid, random_choice, random_uuid, uuid_parsed};
use crate::text::{str_eq, trim, trimmed};

verus! {

/// An error answer of these endpoints: HTTP status, code and message.
#[derive(Debug)]
pub struct CatalogError {
    pub status: u16,
    pub code: String,
    pub message: String,
}

/// The error `400 VALIDATION_ERROR` with the given message.
pub fn validation_error(message: &str) -> (e: CatalogError)
    ensures
        e.status == 400,
        e.code@ == "VALIDATION_ERROR"@,
        e.message@ == message@,
{
    CatalogError {
        status: 400,
        code: String::from_str("VALIDATION_ERROR"),
        message: String::from_str(message),
    }
}

// ── Playlists ─────────────────────────────────────────────────────

/// A request to create a playlist.
#[derive(Debug)]
pub struct CreatePlaylistBody {
    pub name: String,
    pub description: Option<String>,
}

/// A request to change a playlist.
#[derive(Debug)]
pub struct UpdatePlaylistBody {
    pub name: Option<String>,
    pub description: Option<String>,
}

/// What is stored for a new playlist.
#[derive(Debug)]
pub struct PlaylistCreate {
    pub name: String,
    pub description: Option<String>,
}

/// The playlist to create from a request: its name trimmed, its description
/// as given.  A blank name is refused.
pub fn check_create_playlist(body: CreatePlaylistBody) -> (r: Result<PlaylistCreate, CatalogError>)
    ensures
        trim(body.name@).len() == 0 ==> (r matches Err(e) && e.status == 400
            && e.code@ == "VALIDATION_ERROR"@ && e.message@ == "playlist name is required"@),
        trim(body.name@).len() > 0 ==> (r matches Ok(p) && p.name@ == trim(body.name@)
            && p.description == body.description),
{
    let name = trimmed(body.name.as_str());
    if name.as_str().unicode_len() == 0 {
        Err(validation_error("playlist name is required"))
    } else {
        Ok(PlaylistCreate { name, description: body.description })
    }
}

// ── Smart playlists ───────────────────────────────────────────────

/// The rules by which a smart playlist picks its tracks.
#[derive(Debug, Clone, Copy, PartialEq, Eq, Structural)]
pub enum SmartRule {
    MostPlayed,
    Favorites,
    Newest,
    RecentlyPlayed,
    Unplayed,
    ByGenre,
    ByYear,
    Random,
}

/// The name of a rule in a request.
pub open spec fn rule_text(r: SmartRule) -> Seq<char> {
    match r {
        SmartRule::MostPlayed => "most_played"@,
        SmartRule::Favorites => "favorites"@,
        SmartRule::Newest => "newest"@,
        SmartRule::RecentlyPlayed => "recently_played"@,
        SmartRule::Unplayed => "unplayed"@,
        SmartRule::ByGenre => "by_genre"@,
        SmartRule::ByYear => "by_year"@,
        SmartRule::Random => "random"@,
    }
}

/// The message of the error for an unknown rule.
pub open spec fn unknown_rule_message(rule: Seq<char>) -> Seq<char> {
    "unknown rule: "@ + rule
        + ". Supported: most_played, favorites, newest, recently_played, unplayed, by_genre, by_year, random"@
}

impl SmartRule {
    /// The name of the rule.
    pub fn as_str(&self) -> (s: &'static str)
        ensures
            s@ == rule_text(*self),
    {
        match self {
            SmartRule::MostPlayed => "most_played",
            SmartRule::Favorites => "favorites",
            SmartRule::Newest => "newest",
            SmartRule::RecentlyPlayed => "recently_played",
            SmartRule::Unplayed => "unplayed",
            SmartRule::ByGenre => "by_genre",
            SmartRule::ByYear => "by_year",
            SmartRule::Random => "random",
        }
    }
}

/// The rule named in a request; any other name is refused with
/// `400 INVALID_RULE`.
pub fn parse_smart_rule(rule: &str) -> (r: Result<SmartRule, CatalogError>)
    ensures
        r matches Ok(k) ==> rule_text(k) == rule@,
        r is Err ==> (forall|k: SmartRule| rule_text(k) != rule@),
        r matches Err(e) ==> e.status == 400 && e.code@ == "INVALID_RULE"@
            && e.message@ == unknown_rule_message(rule@),
{
    if str_eq(rule, "most_played") {
        Ok(SmartRule::MostPlayed)
    } else if str_eq(rule, "favorites") {
        Ok(SmartRule::Favorites)
    } else if str_eq(rule, "newest") {
        Ok(SmartRule::Newest)
    } else if str_eq(rule, "recently_played") {
        Ok(SmartRule::RecentlyPlayed)
    } else if str_eq(rule, "unplayed") {
        Ok(SmartRule::Unplayed)
    } else if str_eq(rule, "by_genre") {
        Ok(SmartRule::ByGenre)
    } else if str_eq(rule, "by_year") {
        Ok(SmartRule::ByYear)
    } else if str_eq(rule, "random") {
        Ok(SmartRule::Random)
    } else {
        proof {
            assert forall|k: SmartRule| rule_text(k) != rule@ by {
                match k {
                    SmartRule::MostPlayed => {},
                    SmartRule::Favorites => {},
                    SmartRule::Newest => {},
                    SmartRule::RecentlyPlayed => {},
                    SmartRule::Unplayed => {},
                    SmartRule::ByGenre => {},
                    SmartRule::ByYear => {},
                    SmartRule::Random => {},
                }
            }
        }
        let mut m = String::from_str("unknown rule: ");
        m.append(rule);
        m.append(
            ". Supported: most_played, favorites, newest, recently_played, unplayed, by_genre, by_year, random",
        );
        Err(CatalogError { status: 400, code: String::from_str("INVALID_RULE"), message: m })
    }
}

/// How many tracks a smart playlist takes: the `limit` parameter, 50 when
/// it is missing, and never more than 200.
pub fn smart_limit(limit: Option<u64>) -> (n: usize)
    ensures
        n == (match limit {
            Some(l) => if l < 200 { l as int } else { 200 },
            None => 50,
        }),
{
    let l: u64 = match limit {
        Some(l) => l,
        None => 50,
    };
    if l < 200 {
        l as usize
    } else {
        200
    }
}

/// The checks of a smart-playlist request, in the order they run: a blank
/// name is refused first (`400 VALIDATION_ERROR`), then an unknown rule
/// (`400 INVALID_RULE`); an accepted request gives its rule and how many
/// tracks it takes.
pub fn smart_playlist_request(name: &str, rule: &str, limit: Option<u64>) -> (r: Result<
    (SmartRule, usize),
    CatalogError,
>)
    ensures
        trim(name@).len() == 0 ==> (r matches Err(e) && e.status == 400 && e.code@
            == "VALIDATION_ERROR"@ && e.message@ == "playlist name is required"@),
        trim(name@).len() > 0 && (forall|k: SmartRule| rule_text(k) != rule@) ==> (r matches Err(e)
            && e.status == 400 && e.code@ == "INVALID_RULE"@ && e.message@ == unknown_rule_message(
            rule@,
        )),
        r matches Ok((k, n)) ==> trim(name@).len() > 0 && rule_text(k) == rule@ && n == (match limit {
            Some(l) => if l < 200 { l as int } else { 200 },
            None => 50,
        }),
        trim(name@).len() > 0 && (exists|k: SmartRule| rule_text(k) == rule@) ==> r is Ok,
{
    let t = trimmed(name);
    if t.as_str().unicode_len() == 0 {
        return Err(validation_error("playlist name is required"));
    }
    match parse_smart_rule(rule) {
        Ok(k) => Ok((k, smart_limit(limit))),
        Err(e) => Err(e),
    }
}

/// The year the `by_year` rule picks when the request names none.
pub const DEFAULT_SMART_YEAR: i32 = 2020;

/// The description stored with a smart playlist.
pub fn smart_description(rule: &str) -> (s: String)
    ensures
        s@ == "Smart playlist: "@ + rule@,
{
    let mut s = String::from_str("Smart playlist: ");
    s.append(rule);
    s
}


/// What the smart playlist rules read of a track.
#[derive(Debug)]
pub struct TrackFacts {
    pub id: u128,
    pub genre: Option<String>,
    pub year: Option<i32>,
}

/// The test by which a rule keeps a track.
#[derive(Debug)]
pub enum TrackFilter {
    /// `unplayed`: tracks whose id is not among these.
    NotIn(Vec<u128>),
    /// `by_genre`: tracks of exactly this genre.
    Genre(String),
    /// `by_year`: tracks of exactly this year.
    Year(i32),
}

/// Whether the filter keeps the track.
pub open spec fn keeps(f: TrackFilter, t: TrackFacts) -> bool {
    match f {
        TrackFilter::NotIn(ids) => !ids@.contains(t.id),
        TrackFilter::Genre(g) => t.genre matches Some(tg) && tg@ == g@,
        TrackFilter::Year(y) => t.year == Some(y),
    }
}

/// The ids of the tracks of `s` that the filter keeps, in order.
pub open spec fn kept_ids(s: Seq<TrackFacts>, f: TrackFilter) -> Seq<u128>
    decreases s.len(),
{
    if s.len() == 0 {
        Seq::empty()
    } else if keeps(f, s.last()) {
        kept_ids(s.drop_last(), f).push(s.last().id)
    } else {
        kept_ids(s.drop_last(), f)
    }
}

/// The first `n` items of `s`, or all of them when there are fewer.
pub open spec fn first_n<A>(s: Seq<A>, n: int) -> Seq<A> {
    if n < s.len() {
        s.take(n)
    } else {
        s
    }
}

/// What the filter keeps of a prefix of the tracks is a prefix of what it
/// keeps of all of them.
pub proof fn lemma_kept_prefix(s: Seq<TrackFacts>, f: TrackFilter, i: int)
    requires
        0 <= i <= s.len(),
    ensures
        kept_ids(s.take(i), f).len() <= kept_ids(s, f).len(),
        kept_ids(s, f).take(kept_ids(s.take(i), f).len() as int) == kept_ids(s.take(i), f),
    decreases s.len() - i,
{
    if i == s.len() {
        assert(s.take(i) =~= s);
        assert(kept_ids(s, f).take(kept_ids(s, f).len() as int) =~= kept_ids(s, f));
    } else {
        lemma_kept_prefix(s, f, i + 1);
        assert(s.take(i + 1).drop_last() =~= s.take(i));
        let a = kept_ids(s.take(i), f);
        let b = kept_ids(s.take(i + 1), f);
        let c = kept_ids(s, f);
        assert(c.take(a.len() as int) =~= b.take(a.len() as int));
        assert(b.take(a.len() as int) =~= a);
    }
}

/// Whether `ids` holds `id`.
fn holds_id(ids: &Vec<u128>, id: u128) -> (r: bool)
    ensures
        r == ids@.contains(id),
{
    let mut i: usize = 0;
    while i < ids.len()
        invariant
            i <= ids.len(),
            forall|j: int| 0 <= j < i ==> ids@[j] != id,
        decreases ids.len() - i,
    {
        if ids[i] == id {
            return true;
        }
        i = i + 1;
    }
    false
}

/// Whether the filter keeps the track.
pub fn track_kept(t: &TrackFacts, f: &TrackFilter) -> (r: bool)
    ensures
        r == keeps(*f, *t),
{
    match f {
        TrackFilter::NotIn(ids) => !holds_id(ids, t.id),
        TrackFilter::Genre(g) => match &t.genre {
            Some(tg) => str_eq(tg.as_str(), g.as_str()),
            None => false,
        },
        TrackFilter::Year(y) => match t.year {
            Some(ty) => ty == *y,
            None => false,
        },
    }
}

/// The tracks a filtering rule (`unplayed`, `by_genre`, `by_year`) puts in
/// a smart playlist: the ids of the tracks it keeps, in library order, at
/// most `limit` of them.
pub fn select_tracks(tracks: &Vec<TrackFacts>, f: &TrackFilter, limit: usize) -> (r: Vec<u128>)
    ensures
        r@ == first_n(kept_ids(tracks@, *f), limit as int),
{
    let mut r: Vec<u128> = Vec::new();
    let mut i: usize = 0;
    while i < tracks.len() && r.len() < limit
        invariant
            i <= tracks.len(),
            r.len() <= limit,
            r@ == kept_ids(tracks@.take(i as int), *f),
        decreases tracks.len() - i,
    {
        proof {
            assert(tracks@.take(i as int + 1).drop_last() =~= tracks@.take(i as int));
        }
        if track_kept(&tracks[i], f) {
            r.push(tracks[i].id);
        }
        i = i + 1;
    }
    proof {
        lemma_kept_prefix(tracks@, *f, i as int);
        if i == tracks.len() {
            assert(tracks@.take(i as int) =~= tracks@);
        }
    }
    r
}

/// When a track was added, as the library orders tracks by age.
#[derive(Debug, Clone, Copy)]
pub struct TrackStamp {
    pub id: u128,
    pub created_at: i64,
}

/// Where a track added at `key` goes in a list ordered newest first: after
/// every track added at `key` or later.
pub open spec fn first_older(s: Seq<TrackStamp>, key: i64) -> int
    decreases s.len(),
{
    if s.len() == 0 {
        0
    } else if s[0].created_at < key {
        0
    } else {
        1 + first_older(s.drop_first(), key)
    }
}

/// The tracks newest first, tracks of the same age in their given order:
/// what a stable sort by descending age gives.
pub open spec fn newest_first(s: Seq<TrackStamp>) -> Seq<TrackStamp>
    decreases s.len(),
{
    if s.len() == 0 {
        Seq::empty()
    } else {
        let rest = newest_first(s.drop_last());
        rest.insert(first_older(rest, s.last().created_at), s.last())
    }
}

/// The ids of a list of tracks.
pub open spec fn stamp_ids(s: Seq<TrackStamp>) -> Seq<u128> {
    s.map_values(|t: TrackStamp| t.id)
}

/// Whether the list is ordered newest first.
pub open spec fn is_newest_first(s: Seq<TrackStamp>) -> bool {
    forall|i: int, j: int| 0 <= i < j < s.len() ==> s[i].created_at >= s[j].created_at
}

proof fn lemma_first_older(s: Seq<TrackStamp>, key: i64)
    ensures
        0 <= first_older(s, key) <= s.len(),
        forall|j: int| 0 <= j < first_older(s, key) ==> s[j].created_at >= key,
        first_older(s, key) < s.len() ==> s[first_older(s, key)].created_at < key,
    decreases s.len(),
{
    if s.len() > 0 && s[0].created_at >= key {
        lemma_first_older(s.drop_first(), key);
        assert forall|j: int| 0 <= j < first_older(s, key) implies s[j].created_at >= key by {
            if j > 0 {
                assert(s[j] == s.drop_first()[j - 1]);
            }
        }
    }
}

/// Sorting newest first keeps every track and orders them by age.
pub proof fn lemma_newest_first(s: Seq<TrackStamp>)
    ensures
        newest_first(s).len() == s.len(),
        newest_first(s).to_multiset() == s.to_multiset(),
        is_newest_first(newest_first(s)),
    decreases s.len(),
{
    broadcast use vstd::seq_lib::to_multiset_insert, vstd::seq_lib::to_multiset_build;

    if s.len() == 0 {
        assert(newest_first(s) =~= s);
    } else {
        let rest = newest_first(s.drop_last());
        let x = s.last();
        lemma_newest_first(s.drop_last());
        lemma_first_older(rest, x.created_at);
        let p = first_older(rest, x.created_at);
        let t = rest.insert(p, x);
        rest.insert_ensures(p, x);
        assert(s.drop_last().push(x) =~= s);
        assert(t.to_multiset() == rest.to_multiset().insert(x));
        assert(s.drop_last().push(x).to_multiset() == s.drop_last().to_multiset().insert(x));
        assert forall|i: int, j: int| 0 <= i < j < t.len() implies t[i].created_at
            >= t[j].created_at by {
            if j < p {
            } else if j == p {
                assert(t[i] == rest[i]);
            } else if i < p {
                assert(t[j] == rest[j - 1]);
            } else if i == p {
                assert(t[j] == rest[j - 1]);
                assert(rest[p].created_at < x.created_at);
                assert(rest[p].created_at >= rest[j - 1].created_at || j - 1 == p);
            } else {
                assert(t[i] == rest[i - 1]);
                assert(t[j] == rest[j - 1]);
            }
        }
    }
}

/// The position at which a track added at `key` goes in `sorted`.
fn newest_position(sorted: &Vec<TrackStamp>, key: i64) -> (k: usize)
    ensures
        k == first_older(sorted@, key),
        k <= sorted.len(),
{
    proof {
        lemma_first_older(sorted@, key);
        assert(sorted@.skip(0) =~= sorted@);
    }
    let mut k: usize = 0;
    while k < sorted.len() && sorted[k].created_at >= key
        invariant
            k <= sorted.len(),
            first_older(sorted@, key) == k + first_older(sorted@.skip(k as int), key),
        decreases sorted.len() - k,
    {
        proof {
            assert(sorted@.skip(k as int).drop_first() =~= sorted@.skip(k as int + 1));
        }
        k = k + 1;
    }
    k
}

/// The tracks the `newest` rule puts in a smart playlist: the ids of the
/// `limit` most recently added tracks, newest first, tracks of the same
/// age in library order.
pub fn newest_tracks(tracks: &Vec<TrackStamp>, limit: usize) -> (r: Vec<u128>)
    ensures
        r@ == stamp_ids(first_n(newest_first(tracks@), limit as int)),
{
    let mut sorted: Vec<TrackStamp> = Vec::new();
    let mut i: usize = 0;
    while i < tracks.len()
        invariant
            i <= tracks.len(),
            sorted@ == newest_first(tracks@.take(i as int)),
        decreases tracks.len() - i,
    {
        proof {
            assert(tracks@.take(i as int + 1).drop_last() =~= tracks@.take(i as int));
        }
        let x = tracks[i];
        let k = newest_position(&sorted, x.created_at);
        sorted.insert(k, x);
        i = i + 1;
    }
    proof {
        assert(tracks@.take(i as int) =~= tracks@);
    }
    let ghost all = sorted@;
    let n: usize = if limit < sorted.len() {
        limit
    } else {
        sorted.len()
    };
    let mut r: Vec<u128> = Vec::new();
    let mut j: usize = 0;
    while j < n
        invariant
            n <= sorted.len(),
            sorted@ == all,
            j <= n,
            r@ == stamp_ids(all.take(j as int)),
        decreases n - j,
    {
        r.push(sorted[j].id);
        proof {
            assert(stamp_ids(all.take(j as int + 1)) =~= stamp_ids(all.take(j as int)).push(all[j as int].id));
        }
        j = j + 1;
    }
    proof {
        assert(first_n(all, limit as int) =~= all.take(n as int));
    }
    r
}

/// The tracks the `random` rule puts in a smart playlist: `limit` tracks of
/// the library (all of them when it holds fewer), each at most once, chosen
/// at random.
pub fn random_tracks(ids: &Vec<u128>, limit: usize) -> (r: Vec<u128>)
    ensures
        r.len() == (if limit < ids.len() { limit as int } else { ids.len() as int }),
        exists|idx: Seq<int>|
            #![trigger idx.no_duplicates()]
            idx.len() == r.len() && idx.no_duplicates() && forall|i: int|
                0 <= i < r.len() ==> 0 <= #[trigger] idx[i] < ids.len() && r@[i] == ids@[idx[i]],
{
    random_choice(ids, limit)
}

/// The track ids among rows of the play history, in order: the rows whose
/// text is a UUID.
pub open spec fn parsed_ids(rows: Seq<String>) -> Seq<u128>
    decreases rows.len(),
{
    if rows.len() == 0 {
        Seq::empty()
    } else {
        match uuid_parsed(rows.last()@) {
            Some(id) => parsed_ids(rows.drop_last()).push(id),
            None => parsed_ids(rows.drop_last()),
        }
    }
}

/// The tracks the `most_played` and `recently_played` rules read from the
/// ranked play history: each row's track id, rows that hold no UUID left
/// out.
pub fn ranked_track_ids(rows: &Vec<String>) -> (r: Vec<u128>)
    ensures
        r@ == parsed_ids(rows@),
{
    let mut r: Vec<u128> = Vec::new();
    let mut i: usize = 0;
    while i < rows.len()
        invariant
            i <= rows.len(),
            r@ == parsed_ids(rows@.take(i as int)),
        decreases rows.len() - i,
    {
        proof {
            assert(rows@.take(i as int + 1).drop_last() =~= rows@.take(i as int));
        }
        match parse_uuid(rows[i].as_str()) {
            Ok(id) => r.push(id),
            Err(_) => {},
        }
        i = i + 1;
    }
    proof {
        assert(rows@.take(i as int) =~= rows@);
    }
    r
}

// ── Radio stations ────────────────────────────────────────────────

/// A request to add a radio station.
#[derive(Debug)]
pub struct CreateRadioBody {
    pub name: String,
    pub stream_url: String,
    pub homepage: Option<String>,
    pub icon: Option<String>,
    pub codec: Option<String>,
    pub bitrate: Option<u32>,
}

/// A request to change a radio station; what it leaves out stays.
#[derive(Debug)]
pub struct UpdateRadioBody {
    pub name: Option<String>,
    pub stream_url: Option<String>,
    pub homepage: Option<String>,
    pub icon: Option<String>,
    pub codec: Option<String>,
    pub bitrate: Option<u32>,
    pub enabled: Option<bool>,
    pub favorite: Option<bool>,
}

/// A stored radio station.
#[derive(Debug)]
pub struct RadioStation {
    pub id: u128,
    pub name: String,
    pub stream_url: String,
    pub homepage: Option<String>,
    pub icon: Option<String>,
    pub codec: Option<String>,
    pub bitrate: Option<u32>,
    pub last_checked: Option<String>,
    pub enabled: bool,
    pub favorite: bool,
}

/// An optional text, trimmed.
pub open spec fn trimmed_opt(o: Option<String>) -> Option<Seq<char>> {
    match o {
        Some(s) => Some(trim(s@)),
        None => None,
    }
}

/// The text of an optional `String`.
pub open spec fn opt_view(o: Option<String>) -> Option<Seq<char>> {
    match o {
        Some(s) => Some(s@),
        None => None,
    }
}

fn trim_opt(o: &Option<String>) -> (r: Option<String>)
    ensures
        opt_view(r) == trimmed_opt(*o),
{
    match o {
        Some(s) => Some(trimmed(s.as_str())),
        None => None,
    }
}

/// Whether a stream URL is refused because it is not HTTP.
pub open spec fn not_http(url: Seq<char>) -> bool {
    !"http://"@.is_prefix_of(url) && !"https://"@.is_prefix_of(url)
}

/// The station that a request adds under `id`: names and URLs trimmed,
/// enabled, not a favourite, never checked.  A blank name or stream URL is
/// refused, and so is a stream URL that does not begin with `http://` or
/// `https://`.
pub fn new_radio_station(id: u128, body: &CreateRadioBody) -> (r: Result<RadioStation, CatalogError>)
    ensures
        (trim(body.name@).len() == 0 || trim(body.stream_url@).len() == 0) ==> (r matches Err(e)
            && e.status == 400 && e.code@ == "VALIDATION_ERROR"@
            && e.message@ == "name and stream_url are required"@),
        (trim(body.name@).len() > 0 && trim(body.stream_url@).len() > 0 && not_http(body.stream_url@))
            ==> (r matches Err(e) && e.status == 400 && e.code@ == "VALIDATION_ERROR"@
            && e.message@ == "stream_url must start with http:// or https://"@),
        (trim(body.name@).len() > 0 && trim(body.stream_url@).len() > 0 && !not_http(body.stream_url@))
            ==> (r matches Ok(st) && st.id == id && st.name@ == trim(body.name@)
            && st.stream_url@ == trim(body.stream_url@)
            && opt_view(st.homepage) == trimmed_opt(body.homepage)
            && opt_view(st.icon) == trimmed_opt(body.icon)
            && opt_view(st.codec) == trimmed_opt(body.codec) && st.bitrate == body.bitrate
            && st.last_checked is None && st.enabled && !st.favorite),
{
    let name = trimmed(body.name.as_str());
    let url = trimmed(body.stream_url.as_str());
    if name.as_str().unicode_len() == 0 || url.as_str().unicode_len() == 0 {
        return Err(validation_error("name and stream_url are required"));
    }
    if !crate::text::starts_with(body.stream_url.as_str(), "http://")
        && !crate::text::starts_with(body.stream_url.as_str(), "https://") {
        return Err(validation_error("stream_url must start with http:// or https://"));
    }
    Ok(RadioStation {
        id,
        name,
        stream_url: url,
        homepage: trim_opt(&body.homepage),
        icon: trim_opt(&body.icon),
        codec: trim_opt(&body.codec),
        bitrate: body.bitrate,
        last_checked: None,
        enabled: true,
        favorite: false,
    })
}

/// Adds a radio station under a fresh random id: the station of
/// `new_radio_station` for that id, or its error.
pub fn create_radio_station(body: &CreateRadioBody) -> (r: Result<RadioStation, CatalogError>)
    ensures
        r is Err <==> (trim(body.name@).len() == 0 || trim(body.stream_url@).len() == 0
            || not_http(body.stream_url@)),
        r matches Ok(st) ==> st.name@ == trim(body.name@) && st.stream_url@ == trim(body.stream_url@)
            && opt_view(st.homepage) == trimmed_opt(body.homepage)
            && opt_view(st.icon) == trimmed_opt(body.icon)
            && opt_view(st.codec) == trimmed_opt(body.codec) && st.bitrate == body.bitrate
            && st.last_checked is None && st.enabled && !st.favorite,
{
    let id = random_uuid();
    new_radio_station(id, body)
}

/// The station after an update: each field the request gives replaces the
/// stored one; the id and the last check stay.
pub open spec fn radio_updated(old: RadioStation, body: UpdateRadioBody) -> RadioStation {
    RadioStation {
        id: old.id,
        name: match body.name { Some(v) => v, None => old.name },
        stream_url: match body.stream_url { Some(v) => v, None => old.stream_url },
        homepage: match body.homepage { Some(v) => Some(v), None => old.homepage },
        icon: match body.icon { Some(v) => Some(v), None => old.icon },
        codec: match body.codec { Some(v) => Some(v), None => old.codec },
        bitrate: match body.bitrate { Some(v) => Some(v), None => old.bitrate },
        last_checked: old.last_checked,
        enabled: match body.enabled { Some(v) => v, None => old.enabled },
        favorite: match body.favorite { Some(v) => v, None => old.favorite },
    }
}

/// Applies an update to a stored station.
pub fn apply_radio_update(old: RadioStation, body: UpdateRadioBody) -> (r: RadioStation)
    ensures
        r == radio_updated(old, body),
{
    RadioStation {
        id: old.id,
        name: match body.name { Some(v) => v, None => old.name },
        stream_url: match body.stream_url { Some(v) => v, None => old.stream_url },
        homepage: match body.homepage { Some(v) => Some(v), None => old.homepage },
        icon: match body.icon { Some(v) => Some(v), None => old.icon },
        codec: match body.codec { Some(v) => Some(v), None => old.codec },
        bitrate: match body.bitrate { Some(v) => Some(v), None => old.bitrate },
        last_checked: old.last_checked,
        enabled: match body.enabled { Some(v) => v, None => old.enabled },
        favorite: match body.favorite { Some(v) => v, None => old.favorite },
    }
}

/// Whether an update gives no field.
pub open spec fn empty_update(body: UpdateRadioBody) -> bool {
    &&& body.name is None
    &&& body.stream_url is None
    &&& body.homepage is None
    &&& body.icon is None
    &&& body.codec is None
    &&& body.bitrate is None
    &&& body.enabled is None
    &&& body.favorite is None
}

/// An update that gives no field leaves the station as it was.
pub proof fn law_empty_radio_update_keeps_station(old: RadioStation, body: UpdateRadioBody)
    requires
        empty_update(body),
    ensures
        radio_updated(old, body) == old,
{
}

/// Updating a station twice with the same request gives what one update
/// gives.
pub proof fn law_radio_update_idempotent(old: RadioStation, body: UpdateRadioBody)
    ensures
        radio_updated(radio_updated(old, body), body) == radio_updated(old, body),
{
}

/// The position of the station with this id.
pub fn find_station(stations: &Vec<RadioStation>, id: u128) -> (r: Option<usize>)
    ensures
        r matches Some(i) ==> i < stations.len() && stations@[i as int].id == id
            && forall|j: int| 0 <= j < i ==> stations@[j].id != id,
        r is None ==> forall|j: int| 0 <= j < stations.len() ==> stations@[j].id != id,
{
    let mut i: usize = 0;
    while i < stations.len()
        invariant
            i <= stations.len(),
            forall|j: int| 0 <= j < i ==> stations@[j].id != id,
        decreases stations.len() - i,
    {
        if stations[i].id == id {
            return Some(i);
        }
        i = i + 1;
    }
    None
}

/// What a probe of a station's stream reports for the HTTP status it got:
/// `reachable` for a success (2xx), else `unreachable`.
pub fn reachability(status: u16) -> (s: &'static str)
    ensures
        200 <= status <= 299 ==> s@ == "reachable"@,
        !(200 <= status <= 299) ==> s@ == "unreachable"@,
{
    if 200 <= status && status <= 299 {
        "reachable"
    } else {
        "unreachable"
    }
}

// ── Search ────────────────────────────────────────────────────────

/// An advanced search request.
#[derive(Debug)]
pub struct SearchQuery {
    pub q: String,
}

impl SearchQuery {
    /// The text searched for: the query trimmed.  A blank query searches
    /// nothing and is answered with no tracks.
    pub fn term(&self) -> (r: Option<String>)
        ensures
            trim(self.q@).len() == 0 ==> r is None,
            trim(self.q@).len() > 0 ==> (r matches Some(t) && t@ == trim(self.q@)),
    {
        let t = trimmed(self.q.as_str());
        if t.as_str().unicode_len() == 0 {
            None
        } else {
            Some(t)
        }
    }
}

} // verus!
