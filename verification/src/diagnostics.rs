//! Diagnostics: reading the process counters that `/proc` reports, the
//! warnings and levels that the health reports give, and the
//! compatibility summary for players.
use vstd::prelude::*;
use vstd::string::StringExecFns;

use crate::client_ip::split_on;
use crate::text::{
    append_decimal, chars_of, decimal, is_whitespace, is_ws, opt_text, parse_u64, spec_parse_u64,
    str_eq,
};

verus! {

/// The whitespace-separated words of `s` (`str::split_whitespace`).
pub open spec fn words(s: Seq<char>) -> Seq<Seq<char>>
    decreases s.len(),
{
    if s.len() == 0 {
        Seq::empty()
    } else {
        let w = words(s.drop_last());
        let c = s.last();
        if is_ws(c) {
            w
        } else if s.len() > 1 && !is_ws(s[s.len() - 2]) && w.len() > 0 {
            w.update(w.len() - 1, w.last().push(c))
        } else {
            w.push(seq![c])
        }
    }
}

/// `s` without one trailing carriage return.
pub open spec fn strip_cr(s: Seq<char>) -> Seq<char> {
    if s.len() > 0 && s.last() == '\r' {
        s.drop_last()
    } else {
        s
    }
}

/// The lines of `s` (`str::lines`): split at line feeds, a final empty
/// piece dropped, a trailing carriage return taken off each line.
pub open spec fn lines(s: Seq<char>) -> Seq<Seq<char>> {
    let pieces = split_on(s, '\n');
    let kept = if pieces.last().len() == 0 {
        pieces.drop_last()
    } else {
        pieces
    };
    kept.map_values(|p: Seq<char>| strip_cr(p))
}

proof fn lemma_words_nonempty(s: Seq<char>, i: int)
    requires
        0 <= i < s.len(),
        !is_ws(s[i]),
    ensures
        words(s).len() > 0,
    decreases s.len(),
{
    if i < s.len() - 1 {
        assert(s.drop_last()[i] == s[i]);
        lemma_words_nonempty(s.drop_last(), i);
    }
}

fn split_words(s: &[char]) -> (r: Vec<Vec<char>>)
    ensures
        r@.map_values(|w: Vec<char>| w@) == words(s@),
{
    let mut out: Vec<Vec<char>> = Vec::new();
    let mut i: usize = 0;
    while i < s.len()
        invariant
            i <= s@.len(),
            out@.map_values(|w: Vec<char>| w@) == words(s@.take(i as int)),
            i > 0 && !is_ws(s@[i - 1]) ==> out@.len() > 0,
        decreases s.len() - i,
    {
        let c = s[i];
        let ghost pre = s@.take(i as int);
        let ghost nxt = s@.take(i as int + 1);
        proof {
            assert(nxt.drop_last() =~= pre);
            assert(nxt.last() == c);
        }
        let ghost before = out@.map_values(|w: Vec<char>| w@);
        if is_whitespace(c) {
        } else if i > 0 && !is_whitespace(s[i - 1]) && out.len() > 0 {
            proof {
                assert(nxt[nxt.len() - 2] == s@[i - 1]);
            }
            let k = out.len() - 1;
            let mut last = out.remove(k);
            last.push(c);
            out.push(last);
            proof {
                assert(out@.map_values(|w: Vec<char>| w@) =~= before.update(
                    before.len() - 1,
                    before.last().push(c),
                ));
            }
        } else {
            proof {
                if i > 0 {
                    assert(nxt[nxt.len() - 2] == s@[i - 1]);
                }
            }
            let mut w: Vec<char> = Vec::new();
            w.push(c);
            out.push(w);
            proof {
                assert(out@.map_values(|w: Vec<char>| w@) =~= before.push(seq![c]));
            }
        }
        i = i + 1;
    }
    proof {
        assert(s@.take(s@.len() as int) =~= s@);
    }
    out
}

fn split_lines(s: &[char]) -> (r: Vec<Vec<char>>)
    ensures
        r@.map_values(|w: Vec<char>| w@) == lines(s@),
{
    let mut pieces: Vec<Vec<char>> = Vec::new();
    let mut cur: Vec<char> = Vec::new();
    let mut i: usize = 0;
    while i < s.len()
        invariant
            i <= s@.len(),
            pieces@.map_values(|p: Vec<char>| p@).push(cur@) == split_on(s@.take(i as int), '\n'),
        decreases s.len() - i,
    {
        let c = s[i];
        proof {
            let pre = s@.take(i as int);
            let nxt = s@.take(i as int + 1);
            assert(nxt.drop_last() =~= pre);
            assert(nxt.last() == c);
        }
        let ghost old_pieces = pieces@.map_values(|p: Vec<char>| p@);
        let ghost old_cur = cur@;
        if c == '\n' {
            let done = cur;
            pieces.push(done);
            cur = Vec::new();
            proof {
                assert(pieces@.map_values(|p: Vec<char>| p@) =~= old_pieces.push(old_cur));
                assert(pieces@.map_values(|p: Vec<char>| p@).push(cur@) =~= old_pieces.push(
                    old_cur,
                ).push(Seq::empty()));
            }
        } else {
            cur.push(c);
            proof {
                assert(pieces@.map_values(|p: Vec<char>| p@).push(cur@) =~= old_pieces.push(
                    old_cur,
                ).update(old_pieces.len() as int, old_cur.push(c)));
            }
        }
        i = i + 1;
    }
    proof {
        assert(s@.take(s@.len() as int) =~= s@);
    }
    let ghost all = pieces@.map_values(|p: Vec<char>| p@).push(cur@);
    let ghost kept = if all.last().len() == 0 {
        all.drop_last()
    } else {
        all
    };
    if cur.len() > 0 {
        pieces.push(cur);
    }
    proof {
        assert(pieces@.map_values(|p: Vec<char>| p@) =~= kept);
    }
    let mut out: Vec<Vec<char>> = Vec::new();
    let mut k: usize = 0;
    while k < pieces.len()
        invariant
            k <= pieces@.len(),
            pieces@.map_values(|p: Vec<char>| p@) == kept,
            out@.map_values(|w: Vec<char>| w@) =~= kept.take(k as int).map_values(
                |p: Seq<char>| strip_cr(p),
            ),
        decreases pieces.len() - k,
    {
        let p = &pieces[k];
        let mut line: Vec<char> = Vec::new();
        let n = if p.len() > 0 && p[p.len() - 1] == '\r' {
            p.len() - 1
        } else {
            p.len()
        };
        let mut j: usize = 0;
        while j < n
            invariant
                n <= p@.len(),
                j <= n,
                line@ == p@.take(j as int),
            decreases n - j,
        {
            line.push(p[j]);
            proof {
                assert(p@.take(j as int + 1) =~= p@.take(j as int).push(p@[j as int]));
            }
            j = j + 1;
        }
        proof {
            assert(kept[k as int] == p@);
            assert(line@ =~= strip_cr(p@));
            assert(kept.take(k as int + 1).map_values(|p: Seq<char>| strip_cr(p)) =~= kept.take(
                k as int,
            ).map_values(|p: Seq<char>| strip_cr(p)).push(strip_cr(kept[k as int])));
        }
        let ghost before = out@.map_values(|w: Vec<char>| w@);
        out.push(line);
        proof {
            assert(out@.map_values(|w: Vec<char>| w@) =~= before.push(line@));
        }
        k = k + 1;
    }
    proof {
        assert(kept.take(pieces@.len() as int) =~= kept);
    }
    out
}

/// The value of a `/proc/self/status` field line: its second word as a
/// number, or 0.
pub open spec fn field_value(line: Seq<char>) -> u64 {
    let ws = words(line);
    if ws.len() > 1 {
        match spec_parse_u64(ws[1]) {
            Some(v) => v,
            None => 0,
        }
    } else {
        0
    }
}

/// The value of the last line of `ls` that begins with `key`, or 0.
pub open spec fn last_field(ls: Seq<Seq<char>>, key: Seq<char>) -> u64
    decreases ls.len(),
{
    if ls.len() == 0 {
        0
    } else if key.is_prefix_of(ls.last()) {
        field_value(ls.last())
    } else {
        last_field(ls.drop_last(), key)
    }
}

fn has_prefix(v: &Vec<char>, p: &str) -> (r: bool)
    ensures
        r == p@.is_prefix_of(v@),
{
    let pv = chars_of(p);
    if pv.len() > v.len() {
        return false;
    }
    let mut i: usize = 0;
    while i < pv.len()
        invariant
            pv@ == p@,
            pv@.len() <= v@.len(),
            i <= pv@.len(),
            forall|j: int| 0 <= j < i ==> pv@[j] == v@[j],
        decreases pv.len() - i,
    {
        if pv[i] != v[i] {
            return false;
        }
        i = i + 1;
    }
    proof {
        assert(p@ =~= v@.subrange(0, p@.len() as int));
    }
    true
}

fn line_value(line: &Vec<char>) -> (r: u64)
    ensures
        r == field_value(line@),
{
    let ws = split_words(line.as_slice());
    proof {
        assert(ws@.map_values(|w: Vec<char>| w@).len() == ws@.len());
    }
    if ws.len() > 1 {
        proof {
            assert(ws@.map_values(|w: Vec<char>| w@)[1] == ws@[1]@);
        }
        match parse_u64(ws[1].as_slice()) {
            Some(v) => v,
            None => 0,
        }
    } else {
        0
    }
}

/// Resident and virtual memory in MiB, from the text of
/// `/proc/self/status` (its `VmRSS:` and `VmSize:` lines, in KiB).
pub fn memory_from_status(content: &str) -> (r: (u64, u64))
    ensures
        r == (
            last_field(lines(content@), "VmRSS:"@) / 1024,
            last_field(lines(content@), "VmSize:"@) / 1024,
        ),
{
    let cs = chars_of(content);
    let ls = split_lines(cs.as_slice());
    let ghost lv = ls@.map_values(|w: Vec<char>| w@);
    let mut rss: u64 = 0;
    let mut vm: u64 = 0;
    let mut i: usize = 0;
    while i < ls.len()
        invariant
            lv == ls@.map_values(|w: Vec<char>| w@),
            i <= ls@.len(),
            rss == last_field(lv.take(i as int), "VmRSS:"@),
            vm == last_field(lv.take(i as int), "VmSize:"@),
        decreases ls.len() - i,
    {
        proof {
            assert(lv.take(i as int + 1).drop_last() =~= lv.take(i as int));
            assert(lv.take(i as int + 1).last() == ls@[i as int]@);
        }
        if has_prefix(&ls[i], "VmRSS:") {
            rss = line_value(&ls[i]);
        }
        if has_prefix(&ls[i], "VmSize:") {
            vm = line_value(&ls[i]);
        }
        i = i + 1;
    }
    proof {
        assert(lv.take(ls@.len() as int) =~= lv);
    }
    (rss / 1024, vm / 1024)
}

/// A parsed number, or 0.
pub open spec fn number_or_zero(w: Seq<char>) -> u64 {
    match spec_parse_u64(w) {
        Some(v) => v,
        None => 0,
    }
}

/// `a + b`, wrapping past `u64::MAX`.
pub open spec fn wrap_add(a: u64, b: u64) -> u64 {
    if a + b > u64::MAX {
        (a + b - 18446744073709551616) as u64
    } else {
        (a + b) as u64
    }
}

/// The CPU ticks of the process, from the text of `/proc/self/stat`: user
/// plus system time (its 14th and 15th words), wrapping on overflow.
pub open spec fn spec_process_ticks(content: Seq<char>) -> u64 {
    let ws = words(content);
    if ws.len() >= 15 {
        wrap_add(number_or_zero(ws[13]), number_or_zero(ws[14]))
    } else {
        0
    }
}

fn number_or_zero_exec(w: &Vec<char>) -> (r: u64)
    ensures
        r == number_or_zero(w@),
{
    match parse_u64(w.as_slice()) {
        Some(v) => v,
        None => 0,
    }
}

/// The CPU ticks of the process, from the text of `/proc/self/stat`.
pub fn process_ticks(content: &str) -> (r: u64)
    ensures
        r == spec_process_ticks(content@),
{
    let cs = chars_of(content);
    let ws = split_words(cs.as_slice());
    let ghost wv = ws@.map_values(|w: Vec<char>| w@);
    if ws.len() >= 15 {
        proof {
            assert(wv[13] == ws@[13]@);
            assert(wv[14] == ws@[14]@);
        }
        let a = number_or_zero_exec(&ws[13]);
        let b = number_or_zero_exec(&ws[14]);
        a.wrapping_add(b)
    } else {
        0
    }
}

/// The sum, wrapping on overflow, of the words of `ws` that are numbers.
pub open spec fn sum_numbers(ws: Seq<Seq<char>>) -> u64
    decreases ws.len(),
{
    if ws.len() == 0 {
        0
    } else {
        let rest = sum_numbers(ws.drop_last());
        match spec_parse_u64(ws.last()) {
            Some(v) => wrap_add(rest, v),
            None => rest,
        }
    }
}

/// The first line of `ls` that begins with `cpu `.
pub open spec fn first_cpu_line(ls: Seq<Seq<char>>) -> Option<Seq<char>>
    decreases ls.len(),
{
    if ls.len() == 0 {
        None
    } else if "cpu "@.is_prefix_of(ls[0]) {
        Some(ls[0])
    } else {
        first_cpu_line(ls.drop_first())
    }
}

/// All CPU ticks of the machine, from the text of `/proc/stat`: the sum of
/// the numbers after the label of its first `cpu ` line.
pub open spec fn spec_total_ticks(content: Seq<char>) -> u64 {
    match first_cpu_line(lines(content)) {
        Some(l) => sum_numbers(words(l).drop_first()),
        None => 0,
    }
}

/// All CPU ticks of the machine, from the text of `/proc/stat`.
pub fn total_ticks(content: &str) -> (r: u64)
    ensures
        r == spec_total_ticks(content@),
{
    let cs = chars_of(content);
    let ls = split_lines(cs.as_slice());
    let ghost lv = ls@.map_values(|w: Vec<char>| w@);
    let mut i: usize = 0;
    proof {
        assert(lv.skip(0) =~= lv);
    }
    while i < ls.len()
        invariant
            lv == ls@.map_values(|w: Vec<char>| w@),
            lv == lines(content@),
            i <= ls@.len(),
            first_cpu_line(lv) == first_cpu_line(lv.skip(i as int)),
        decreases ls.len() - i,
    {
        proof {
            assert(lv.skip(i as int).drop_first() =~= lv.skip(i as int + 1));
            assert(lv.skip(i as int)[0] == ls@[i as int]@);
        }
        if has_prefix(&ls[i], "cpu ") {
            let ws = split_words(ls[i].as_slice());
            let ghost wv = ws@.map_values(|w: Vec<char>| w@);
            proof {
                reveal_strlit("cpu ");
                assert("cpu "@[0] == 'c');
                assert(ls@[i as int]@.subrange(0, 4)[0] == ls@[i as int]@[0]);
                assert(ls@[i as int]@[0] == 'c');
                lemma_words_nonempty(ls@[i as int]@, 0);
                assert(wv.len() > 0);
            }
            let mut sum: u64 = 0;
            let mut k: usize = 1;
            proof {
                assert(wv.drop_first().take(0) =~= Seq::<Seq<char>>::empty());
            }
            while k < ws.len()
                invariant
                    wv == ws@.map_values(|w: Vec<char>| w@),
                    wv.len() > 0,
                    1 <= k <= ws@.len(),
                    sum == sum_numbers(wv.drop_first().take(k - 1)),
                decreases ws.len() - k,
            {
                proof {
                    let t = wv.drop_first().take(k as int);
                    assert(t.drop_last() =~= wv.drop_first().take(k - 1));
                    assert(t.last() == ws@[k as int]@);
                }
                match parse_u64(ws[k].as_slice()) {
                    Some(v) => {
                        sum = sum.wrapping_add(v);
                    },
                    None => {},
                }
                k = k + 1;
            }
            proof {
                assert(wv.drop_first().take(wv.len() - 1) =~= wv.drop_first());
            }
            return sum;
        }
        i = i + 1;
    }
    proof {
        assert(lv.skip(i as int) =~= Seq::<Seq<char>>::empty());
    }
    0
}

/// Free bytes of a file system from its `statvfs` record: fragment size
/// times available blocks, where the record could be read.
pub fn free_bytes(stat: Option<(u64, u64)>) -> (r: Option<u64>)
    requires
        stat matches Some((frsize, bavail)) ==> frsize * bavail <= u64::MAX,
    ensures
        r == (match stat {
            Some((frsize, bavail)) => Some((frsize * bavail) as u64),
            None => None,
        }),
{
    match stat {
        Some((frsize, bavail)) => Some(frsize * bavail),
        None => None,
    }
}

/// Free space below this many bytes is a warning.
pub const STORAGE_WARNING_BYTES: u64 = 1_000_000_000;

/// Free space below this many bytes is critical.
pub const STORAGE_CRITICAL_BYTES: u64 = 100_000_000;

/// How full a storage location is.
#[derive(Debug, Clone, Copy, PartialEq, Eq, Structural)]
pub enum StorageLevel {
    Fine,
    Warning,
    Critical,
}

/// The level of a location with `free` bytes free (0 where unknown).
pub open spec fn spec_storage_level(free: u64) -> StorageLevel {
    if free < STORAGE_CRITICAL_BYTES {
        StorageLevel::Critical
    } else if free < STORAGE_WARNING_BYTES {
        StorageLevel::Warning
    } else {
        StorageLevel::Fine
    }
}

impl StorageLevel {
    /// The level's name.
    pub fn as_str(&self) -> (s: &'static str)
        ensures
            s@ == (match self {
                StorageLevel::Fine => "ok"@,
                StorageLevel::Warning => "warning"@,
                StorageLevel::Critical => "critical"@,
            }),
    {
        match self {
            StorageLevel::Fine => "ok",
            StorageLevel::Warning => "warning",
            StorageLevel::Critical => "critical",
        }
    }
}

/// The level of a storage location; unknown free space counts as none.
pub fn storage_level(free: Option<u64>) -> (r: StorageLevel)
    ensures
        r == spec_storage_level(match free {
            Some(f) => f,
            None => 0,
        }),
{
    let f: u64 = match free {
        Some(f) => f,
        None => 0,
    };
    if f < STORAGE_CRITICAL_BYTES {
        StorageLevel::Critical
    } else if f < STORAGE_WARNING_BYTES {
        StorageLevel::Warning
    } else {
        StorageLevel::Fine
    }
}

/// Whether storage is fine as a whole: both locations must be.
pub fn storage_overall(config: StorageLevel, cache: StorageLevel) -> (ok: bool)
    ensures
        ok == (config == StorageLevel::Fine && cache == StorageLevel::Fine),
{
    config == StorageLevel::Fine && cache == StorageLevel::Fine
}

/// What a player may rely on, as diagnostics reports it.
#[derive(Debug)]
pub struct PlayerCompatibility {
    pub supports_import_preflight: bool,
    pub supports_upload_mapping: bool,
    pub supports_commit_mapping: bool,
    pub supports_queue_transfer: bool,
    pub queue_restored: bool,
    pub playback_restored: bool,
    pub receiver_e2e_ready: bool,
    pub contract_status: String,
}

impl PlayerCompatibility {
    /// The summary for a server with or without a queue, restored playback,
    /// receivers and import sessions.  The contract is partial only when a
    /// queue exists but playback was not restored.
    pub fn new(has_queue: bool, playback_restored: bool, has_receivers: bool, has_imports: bool) -> (r:
        Self)
        ensures
            r.supports_import_preflight == has_imports,
            r.supports_upload_mapping == has_imports,
            r.supports_commit_mapping == has_imports,
            r.supports_queue_transfer == has_queue,
            r.queue_restored == has_queue,
            r.playback_restored == playback_restored,
            r.receiver_e2e_ready == has_receivers,
            r.contract_status@ == (if has_queue && !playback_restored {
                "CONTRACT_PARTIAL"@
            } else {
                "CONTRACT_OK"@
            }),
    {
        let status = if has_queue && playback_restored {
            "CONTRACT_OK"
        } else if has_queue {
            "CONTRACT_PARTIAL"
        } else {
            "CONTRACT_OK"
        };
        PlayerCompatibility {
            supports_import_preflight: has_imports,
            supports_upload_mapping: has_imports,
            supports_commit_mapping: has_imports,
            supports_queue_transfer: has_queue,
            queue_restored: has_queue,
            playback_restored,
            receiver_e2e_ready: has_receivers,
            contract_status: String::from_str(status),
        }
    }
}

/// Database counts of the diagnostics report.
#[derive(Debug)]
pub struct DbStatus {
    pub connected: bool,
    pub total_tracks: i64,
    pub total_playlists: i64,
    pub total_devices: i64,
    pub active_import_sessions: i64,
}

/// The library paths of the diagnostics report.
#[derive(Debug)]
pub struct LibraryStatus {
    pub configured_paths: Vec<String>,
    pub paths_exist: Vec<bool>,
    pub total_tracks: i64,
}

/// The token store of the diagnostics report.
#[derive(Debug)]
pub struct TokenStoreStatus {
    pub active_tokens: usize,
    pub cleanup_active: bool,
}

/// The import staging area of the diagnostics report.
#[derive(Debug)]
pub struct ImportStagingStatus {
    pub staging_path: Option<String>,
    pub exists: bool,
    pub size_bytes: u64,
}

/// The playback state of the diagnostics report.
#[derive(Debug)]
pub struct PlaybackStatus {
    pub track_id: Option<String>,
    pub playing: bool,
    pub position_ms: u64,
    pub volume: u32,
    pub restored: bool,
    pub has_queue: bool,
}

/// The event channel of the diagnostics report.
#[derive(Debug)]
pub struct EventsStatus {
    pub websocket: bool,
    pub auth_enabled: bool,
    pub recommended_polling: bool,
}

/// The queue counts of the diagnostics report.
#[derive(Debug)]
pub struct QueuesStatus {
    pub total_queues: i64,
    pub total_items: i64,
}

/// The free disk space of the diagnostics report.
#[derive(Debug)]
pub struct DiskStatus {
    pub music_path_free_bytes: Option<u64>,
    pub cache_path_free_bytes: Option<u64>,
}

/// The receivers of the diagnostics report.
#[derive(Debug)]
pub struct ReceiverStatus {
    pub client_available: bool,
    pub registered_receivers: usize,
}

/// The configuration of the diagnostics report.
#[derive(Debug)]
pub struct ConfigStatus {
    pub port: u16,
    pub music_paths: Vec<String>,
    pub config_path: String,
    pub cache_path: String,
    pub database_url: String,
    pub auth_enabled: bool,
    pub dev_mode: bool,
    pub server_id: String,
}

/// The token store as diagnostics sees it: one token per linked device.
pub fn token_store_status(total_devices: i64) -> (r: TokenStoreStatus)
    ensures
        r.active_tokens == (if total_devices > 0 {
            total_devices as usize
        } else {
            0
        }),
        r.cleanup_active,
{
    TokenStoreStatus {
        active_tokens: if total_devices > 0 {
            total_devices as usize
        } else {
            0
        },
        cleanup_active: true,
    }
}

/// The receivers as diagnostics sees them.
pub fn receiver_status(registered: usize) -> (r: ReceiverStatus)
    ensures
        r.client_available == (registered > 0),
        r.registered_receivers == registered,
{
    ReceiverStatus { client_available: registered > 0, registered_receivers: registered }
}

/// The verdicts of a diagnostics report that come from its counts.
#[derive(Debug)]
pub struct DiagnosticsHealth {
    /// Healthy exactly when there are no warnings.
    pub healthy: bool,
    pub warnings: Vec<String>,
    /// Whether any queue exists.
    pub has_queue: bool,
    pub receiver: ReceiverStatus,
    pub player_compatibility: PlayerCompatibility,
}

/// Puts the verdicts of a diagnostics report together: healthy exactly when
/// there are no warnings; a queue exists when one is counted; receivers and
/// import sessions are counted likewise for the compatibility summary.
pub fn diagnostics_health(
    warnings: Vec<String>,
    total_queues: i64,
    playback_restored: bool,
    registered_receivers: usize,
    active_import_sessions: i64,
) -> (r: DiagnosticsHealth)
    ensures
        r.healthy == (warnings@.len() == 0),
        r.warnings@ == warnings@,
        r.has_queue == (total_queues > 0),
        r.receiver.client_available == (registered_receivers > 0),
        r.receiver.registered_receivers == registered_receivers,
        r.player_compatibility.supports_import_preflight == (active_import_sessions > 0),
        r.player_compatibility.supports_upload_mapping == (active_import_sessions > 0),
        r.player_compatibility.supports_commit_mapping == (active_import_sessions > 0),
        r.player_compatibility.supports_queue_transfer == (total_queues > 0),
        r.player_compatibility.queue_restored == (total_queues > 0),
        r.player_compatibility.playback_restored == playback_restored,
        r.player_compatibility.receiver_e2e_ready == (registered_receivers > 0),
        r.player_compatibility.contract_status@ == (if total_queues > 0 && !playback_restored {
            "CONTRACT_PARTIAL"@
        } else {
            "CONTRACT_OK"@
        }),
{
    let has_queue = total_queues > 0;
    let healthy = warnings.len() == 0;
    DiagnosticsHealth {
        healthy,
        warnings,
        has_queue,
        receiver: receiver_status(registered_receivers),
        player_compatibility: PlayerCompatibility::new(
            has_queue,
            playback_restored,
            registered_receivers > 0,
            active_import_sessions > 0,
        ),
    }
}

/// The event channel as diagnostics sees it.
pub fn events_status(auth_enabled: bool) -> (r: EventsStatus)
    ensures
        r.websocket && r.recommended_polling,
        r.auth_enabled == auth_enabled,
{
    EventsStatus { websocket: true, auth_enabled, recommended_polling: true }
}

/// The warnings of a diagnostics run, in the order they are checked.
pub open spec fn spec_warnings(
    any_music_path_exists: bool,
    auth_enabled: bool,
    auth_username_set: bool,
    staging_size: u64,
    music_free: Option<u64>,
    stats_error: Option<Seq<char>>,
) -> Seq<Seq<char>> {
    let w0: Seq<Seq<char>> = match stats_error {
        Some(e) => seq!["library_stats failed: "@ + e],
        None => Seq::empty(),
    };
    let w1 = if !any_music_path_exists {
        w0.push("no music paths exist on disk"@)
    } else {
        w0
    };
    let w2 = if auth_enabled && !auth_username_set {
        w1.push("auth enabled but no username configured"@)
    } else {
        w1
    };
    let w3 = if staging_size > 1_000_000_000 {
        w2.push(".import staging is large ("@ + decimal((staging_size / 1_000_000) as nat)
            + " MB). Commits pending?"@)
    } else {
        w2
    };
    match music_free {
        Some(f) => if f < 1_000_000_000 {
            w3.push("low disk space on music path: "@ + decimal((f / 1_000_000) as nat) + " MB free"@)
        } else {
            w3
        },
        None => w3,
    }
}

/// The warnings of a diagnostics run; the report is healthy when there are
/// none.
pub fn diagnostic_warnings(
    any_music_path_exists: bool,
    auth_enabled: bool,
    auth_username_set: bool,
    staging_size: u64,
    music_free: Option<u64>,
    stats_error: Option<&str>,
) -> (r: Vec<String>)
    ensures
        r@.map_values(|s: String| s@) == spec_warnings(
            any_music_path_exists,
            auth_enabled,
            auth_username_set,
            staging_size,
            music_free,
            match stats_error {
                Some(e) => Some(e@),
                None => None,
            },
        ),
{
    let mut r: Vec<String> = Vec::new();
    if let Some(e) = stats_error {
        let mut s = String::from_str("library_stats failed: ");
        s.append(e);
        r.push(s);
    }
    if !any_music_path_exists {
        r.push(String::from_str("no music paths exist on disk"));
    }
    if auth_enabled && !auth_username_set {
        r.push(String::from_str("auth enabled but no username configured"));
    }
    if staging_size > 1_000_000_000 {
        let mut s = String::from_str(".import staging is large (");
        append_decimal(&mut s, staging_size / 1_000_000);
        s.append(" MB). Commits pending?");
        r.push(s);
    }
    if let Some(f) = music_free {
        if f < 1_000_000_000 {
            let mut s = String::from_str("low disk space on music path: ");
            append_decimal(&mut s, f / 1_000_000);
            s.append(" MB free");
            r.push(s);
        }
    }
    proof {
        assert(r@.map_values(|s: String| s@) =~= spec_warnings(
            any_music_path_exists,
            auth_enabled,
            auth_username_set,
            staging_size,
            music_free,
            match stats_error {
                Some(e) => Some(e@),
                None => None,
            },
        ));
    }
    r
}


// ── Self test ─────────────────────────────────────────────────────

/// One check of the self test: what was checked, `passed`, `warning` or
/// `failed`, and a detail.
#[derive(Debug)]
pub struct SelfTestCheck {
    pub name: String,
    pub status: String,
    pub info: Option<String>,
}

/// A checked directory: its display text, and whether it exists and is a
/// directory.
#[derive(Debug)]
pub struct CheckedDir {
    pub display: String,
    pub exists: bool,
    pub is_dir: bool,
}

/// The checks of one music directory each.
pub open spec fn music_checks(dirs: Seq<CheckedDir>) -> Seq<(Seq<char>, Seq<char>, Option<Seq<char>>)>
    decreases dirs.len(),
{
    if dirs.len() == 0 {
        Seq::empty()
    } else {
        let d = dirs.last();
        music_checks(dirs.drop_last()).push(
            (
                "music_path"@,
                if d.exists && d.is_dir {
                    "passed"@
                } else {
                    "warning"@
                },
                Some(d.display@),
            ),
        )
    }
}

/// The checks of the self test, in order: the database, the configuration
/// and cache directories (a missing one is a warning), each music
/// directory, and, with authentication enabled, that it is.
pub open spec fn self_test_checks(
    db_ok: bool,
    config: CheckedDir,
    cache: CheckedDir,
    music: Seq<CheckedDir>,
    auth_enabled: bool,
) -> Seq<(Seq<char>, Seq<char>, Option<Seq<char>>)> {
    let base = seq![
        ("database"@, if db_ok { "passed"@ } else { "failed"@ }, None::<Seq<char>>),
        ("config_path"@, if config.exists { "passed"@ } else { "warning"@ }, Some(config.display@)),
        ("cache_path"@, if cache.exists { "passed"@ } else { "warning"@ }, Some(cache.display@)),
    ] + music_checks(music);
    if auth_enabled {
        base.push(("admin_token_configured"@, "passed"@, Some("authentication is enabled"@)))
    } else {
        base
    }
}

/// The value of a check.
pub open spec fn check_value(c: SelfTestCheck) -> (Seq<char>, Seq<char>, Option<Seq<char>>) {
    (c.name@, c.status@, opt_text(c.info))
}

fn check(name: &str, status: &str, info: Option<String>) -> (c: SelfTestCheck)
    ensures
        check_value(c) == (name@, status@, opt_text(info)),
{
    SelfTestCheck { name: String::from_str(name), status: String::from_str(status), info }
}

/// Runs the self test over what the caller found: the checks, and whether
/// every one of them passed.
pub fn self_test(
    db_ok: bool,
    config: &CheckedDir,
    cache: &CheckedDir,
    music: &Vec<CheckedDir>,
    auth_enabled: bool,
) -> (r: (Vec<SelfTestCheck>, bool))
    ensures
        r.0@.map_values(|c: SelfTestCheck| check_value(c)) == self_test_checks(
            db_ok,
            *config,
            *cache,
            music@,
            auth_enabled,
        ),
        r.1 == forall|i: int| 0 <= i < r.0@.len() ==> (#[trigger] r.0@[i]).status@ == "passed"@,
{
    let mut v: Vec<SelfTestCheck> = Vec::new();
    v.push(check("database", if db_ok { "passed" } else { "failed" }, None));
    v.push(check("config_path", if config.exists { "passed" } else { "warning" }, Some(config.display.clone())));
    v.push(check("cache_path", if cache.exists { "passed" } else { "warning" }, Some(cache.display.clone())));
    let ghost start = v@.map_values(|c: SelfTestCheck| check_value(c));
    proof {
        assert(start =~= seq![
            ("database"@, if db_ok { "passed"@ } else { "failed"@ }, None::<Seq<char>>),
            ("config_path"@, if config.exists { "passed"@ } else { "warning"@ }, Some(config.display@)),
            ("cache_path"@, if cache.exists { "passed"@ } else { "warning"@ }, Some(cache.display@)),
        ]);
    }
    let mut i: usize = 0;
    while i < music.len()
        invariant
            i <= music@.len(),
            v@.map_values(|c: SelfTestCheck| check_value(c)) == start + music_checks(music@.take(i as int)),
        decreases music.len() - i,
    {
        proof {
            assert(music@.take(i as int + 1).drop_last() =~= music@.take(i as int));
        }
        let d = &music[i];
        let ghost before = v@.map_values(|c: SelfTestCheck| check_value(c));
        v.push(check("music_path", if d.exists && d.is_dir { "passed" } else { "warning" }, Some(d.display.clone())));
        proof {
            assert(v@.map_values(|c: SelfTestCheck| check_value(c)) =~= before.push(check_value(v@.last())));
            assert(start + music_checks(music@.take(i as int + 1)) =~= (start + music_checks(
                music@.take(i as int),
            )).push(check_value(v@.last())));
        }
        i = i + 1;
    }
    proof {
        assert(music@.take(i as int) =~= music@);
    }
    if auth_enabled {
        let ghost before = v@.map_values(|c: SelfTestCheck| check_value(c));
        v.push(check("admin_token_configured", "passed", Some(String::from_str("authentication is enabled"))));
        proof {
            assert(v@.map_values(|c: SelfTestCheck| check_value(c)) =~= before.push(check_value(v@.last())));
        }
    }
    let mut all = true;
    let mut j: usize = 0;
    while j < v.len()
        invariant
            j <= v@.len(),
            all == forall|k: int| 0 <= k < j ==> (#[trigger] v@[k]).status@ == "passed"@,
        decreases v.len() - j,
    {
        if !str_eq(v[j].status.as_str(), "passed") {
            all = false;
        }
        j = j + 1;
    }
    (v, all)
}

} // verus!
