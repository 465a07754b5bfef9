//! Server settings: which changed settings wait for a restart, where each
//! setting's value comes from, and the rules that an update must follow.
use vstd::prelude::*;
use vstd::string::StringExecFns;

use crate::deps::{to_lowercase, unicode_lowercase};
use crate::text::str_eq;

verus! {

/// The settings that take effect on restart, with the user-interface
/// preferences beside them.  Profiles are held by their names.
#[derive(Debug)]
pub struct SettingsValues {
    pub resource_profile: String,
    pub stream_profile: String,
    pub format_policy: String,
    pub auto_backup_enabled: bool,
    pub backup_max_keep: u32,
    pub job_max_concurrent: u32,
    pub reconnect_delay_max: u32,
    pub max_remote_bitrate: u32,
    pub remote_sync: bool,
    pub scrobble_enabled: bool,
    pub dev_mode: bool,
    pub sync_name: String,
    pub sync_peers: Vec<String>,
    pub language: String,
    pub theme: String,
    pub sidebar_collapsed: bool,
    pub cover_art_enabled: bool,
}

/// The texts of a list of strings.
pub open spec fn texts(v: Seq<String>) -> Seq<Seq<char>> {
    v.map_values(|s: String| s@)
}

/// The settings whose change needs a restart, in the order they are
/// reported.
pub open spec fn restart_fields() -> Seq<Seq<char>> {
    seq![
        "resource_profile"@,
        "stream_profile"@,
        "format_policy"@,
        "auto_backup_enabled"@,
        "backup_max_keep"@,
        "job_max_concurrent"@,
        "reconnect_delay_max"@,
        "max_remote_bitrate"@,
        "remote_sync"@,
        "scrobble_enabled"@,
        "dev_mode"@,
        "sync_name"@,
        "sync_peers"@,
    ]
}

/// Whether the `k`-th restart setting differs between two sets of values.
pub open spec fn field_differs(a: SettingsValues, b: SettingsValues, k: int) -> bool {
    if k == 0 {
        a.resource_profile@ != b.resource_profile@
    } else if k == 1 {
        a.stream_profile@ != b.stream_profile@
    } else if k == 2 {
        a.format_policy@ != b.format_policy@
    } else if k == 3 {
        a.auto_backup_enabled != b.auto_backup_enabled
    } else if k == 4 {
        a.backup_max_keep != b.backup_max_keep
    } else if k == 5 {
        a.job_max_concurrent != b.job_max_concurrent
    } else if k == 6 {
        a.reconnect_delay_max != b.reconnect_delay_max
    } else if k == 7 {
        a.max_remote_bitrate != b.max_remote_bitrate
    } else if k == 8 {
        a.remote_sync != b.remote_sync
    } else if k == 9 {
        a.scrobble_enabled != b.scrobble_enabled
    } else if k == 10 {
        a.dev_mode != b.dev_mode
    } else if k == 11 {
        a.sync_name@ != b.sync_name@
    } else {
        texts(a.sync_peers@) != texts(b.sync_peers@)
    }
}

/// The restart settings, among the first `n`, whose saved value differs
/// from the running one and that no environment variable overrides.
pub open spec fn pending_prefix(
    active: SettingsValues,
    saved: SettingsValues,
    env: Seq<Seq<char>>,
    n: int,
) -> Seq<Seq<char>>
    decreases n,
{
    if n <= 0 {
        Seq::empty()
    } else {
        let rest = pending_prefix(active, saved, env, n - 1);
        let f = restart_fields()[n - 1];
        if field_differs(saved, active, n - 1) && !env.contains(f) {
            rest.push(f)
        } else {
            rest
        }
    }
}

/// The settings that wait for a restart: none without a saved file.
pub open spec fn spec_pending_restart(
    active: SettingsValues,
    saved: Option<SettingsValues>,
    env: Seq<Seq<char>>,
) -> Seq<Seq<char>> {
    match saved {
        Some(d) => pending_prefix(active, d, env, 13),
        None => Seq::empty(),
    }
}

fn strings_equal(a: &Vec<String>, b: &Vec<String>) -> (r: bool)
    ensures
        r == (texts(a@) == texts(b@)),
{
    if a.len() != b.len() {
        proof {
            assert(texts(a@).len() != texts(b@).len());
        }
        return false;
    }
    let mut i: usize = 0;
    while i < a.len()
        invariant
            a@.len() == b@.len(),
            i <= a@.len(),
            forall|j: int| 0 <= j < i ==> a@[j]@ == b@[j]@,
        decreases a.len() - i,
    {
        if !str_eq(a[i].as_str(), b[i].as_str()) {
            proof {
                assert(texts(a@)[i as int] != texts(b@)[i as int]);
            }
            return false;
        }
        i = i + 1;
    }
    proof {
        assert(texts(a@) =~= texts(b@));
    }
    true
}

fn differs(a: &SettingsValues, b: &SettingsValues, k: usize) -> (r: bool)
    requires
        k < 13,
    ensures
        r == field_differs(*a, *b, k as int),
{
    if k == 0 {
        !str_eq(a.resource_profile.as_str(), b.resource_profile.as_str())
    } else if k == 1 {
        !str_eq(a.stream_profile.as_str(), b.stream_profile.as_str())
    } else if k == 2 {
        !str_eq(a.format_policy.as_str(), b.format_policy.as_str())
    } else if k == 3 {
        a.auto_backup_enabled != b.auto_backup_enabled
    } else if k == 4 {
        a.backup_max_keep != b.backup_max_keep
    } else if k == 5 {
        a.job_max_concurrent != b.job_max_concurrent
    } else if k == 6 {
        a.reconnect_delay_max != b.reconnect_delay_max
    } else if k == 7 {
        a.max_remote_bitrate != b.max_remote_bitrate
    } else if k == 8 {
        a.remote_sync != b.remote_sync
    } else if k == 9 {
        a.scrobble_enabled != b.scrobble_enabled
    } else if k == 10 {
        a.dev_mode != b.dev_mode
    } else if k == 11 {
        !str_eq(a.sync_name.as_str(), b.sync_name.as_str())
    } else {
        !strings_equal(&a.sync_peers, &b.sync_peers)
    }
}

fn restart_field(k: usize) -> (s: &'static str)
    requires
        k < 13,
    ensures
        s@ == restart_fields()[k as int],
{
    let names: [&str; 13] = [
        "resource_profile",
        "stream_profile",
        "format_policy",
        "auto_backup_enabled",
        "backup_max_keep",
        "job_max_concurrent",
        "reconnect_delay_max",
        "max_remote_bitrate",
        "remote_sync",
        "scrobble_enabled",
        "dev_mode",
        "sync_name",
        "sync_peers",
    ];
    proof {
        assert(names@.map_values(|x: &str| x@) =~= restart_fields());
        assert(names@.map_values(|x: &str| x@)[k as int] == names@[k as int]@);
    }
    names[k]
}

fn contains_text(v: &Vec<String>, s: &str) -> (r: bool)
    ensures
        r == texts(v@).contains(s@),
{
    let mut i: usize = 0;
    while i < v.len()
        invariant
            i <= v@.len(),
            forall|j: int| 0 <= j < i ==> v@[j]@ != s@,
        decreases v.len() - i,
    {
        if str_eq(v[i].as_str(), s) {
            proof {
                assert(texts(v@)[i as int] == s@);
            }
            return true;
        }
        i = i + 1;
    }
    proof {
        if texts(v@).contains(s@) {
            let k = choose|k: int| 0 <= k < texts(v@).len() && texts(v@)[k] == s@;
            assert(v@[k]@ == s@);
        }
    }
    false
}

/// The settings that wait for a restart: those whose saved value differs
/// from the running one, unless an environment variable overrides them.
pub fn pending_restart_fields(
    active: &SettingsValues,
    saved: Option<&SettingsValues>,
    env_overrides: &Vec<String>,
) -> (r: Vec<String>)
    ensures
        texts(r@) == spec_pending_restart(
            *active,
            match saved {
                Some(d) => Some(*d),
                None => None,
            },
            texts(env_overrides@),
        ),
{
    let mut r: Vec<String> = Vec::new();
    let d = match saved {
        Some(d) => d,
        None => {
            proof {
                assert(texts(r@) =~= Seq::<Seq<char>>::empty());
            }
            return r;
        },
    };
    let mut k: usize = 0;
    proof {
        assert(texts(r@) =~= pending_prefix(*active, *d, texts(env_overrides@), 0));
    }
    while k < 13
        invariant
            k <= 13,
            texts(r@) == pending_prefix(*active, *d, texts(env_overrides@), k as int),
        decreases 13 - k,
    {
        let name = restart_field(k);
        if differs(d, active, k) && !contains_text(env_overrides, name) {
            let ghost before = texts(r@);
            r.push(String::from_str(name));
            proof {
                assert(texts(r@) =~= before.push(name@));
            }
        }
        k = k + 1;
    }
    r
}

/// Where a setting's value comes from.
#[derive(Debug, Clone, Copy, PartialEq, Eq, Structural)]
pub enum SettingSource {
    Environment,
    File,
    Default,
}

impl SettingSource {
    /// The source's name.
    pub fn as_str(&self) -> (s: &'static str)
        ensures
            s@ == (match self {
                SettingSource::Environment => "environment"@,
                SettingSource::File => "file"@,
                SettingSource::Default => "default"@,
            }),
    {
        match self {
            SettingSource::Environment => "environment",
            SettingSource::File => "file",
            SettingSource::Default => "default",
        }
    }
}

/// The source of a setting: the environment where it overrides it, else the
/// settings file where there is one, else the built-in default.
pub open spec fn source_of(field: Seq<char>, env: Seq<Seq<char>>, has_file: bool) -> SettingSource {
    if env.contains(field) {
        SettingSource::Environment
    } else if has_file {
        SettingSource::File
    } else {
        SettingSource::Default
    }
}

/// The source of each restart setting, in the order of `restart_fields`.
pub fn effective_sources(env_overrides: &Vec<String>, has_file: bool) -> (r: Vec<(String, SettingSource)>)
    ensures
        r@.len() == 13,
        forall|k: int|
            0 <= k < 13 ==> (#[trigger] r@[k]).0@ == restart_fields()[k] && r@[k].1 == source_of(
                restart_fields()[k],
                texts(env_overrides@),
                has_file,
            ),
{
    let mut r: Vec<(String, SettingSource)> = Vec::new();
    let mut k: usize = 0;
    while k < 13
        invariant
            k <= 13,
            r@.len() == k,
            forall|j: int|
                0 <= j < k ==> (#[trigger] r@[j]).0@ == restart_fields()[j] && r@[j].1 == source_of(
                    restart_fields()[j],
                    texts(env_overrides@),
                    has_file,
                ),
        decreases 13 - k,
    {
        let name = restart_field(k);
        let src = if contains_text(env_overrides, name) {
            SettingSource::Environment
        } else if has_file {
            SettingSource::File
        } else {
            SettingSource::Default
        };
        r.push((String::from_str(name), src));
        k = k + 1;
    }
    r
}

/// A settings update: every field is optional.
#[derive(Debug)]
pub struct UpdateSettingsBody {
    pub resource_profile: Option<String>,
    pub stream_profile: Option<String>,
    pub format_policy: Option<String>,
    pub language: Option<String>,
    pub theme: Option<String>,
    pub sidebar_collapsed: Option<bool>,
    pub cover_art_enabled: Option<bool>,
    pub auto_backup_enabled: Option<bool>,
    pub backup_max_keep: Option<u32>,
    pub job_max_concurrent: Option<u32>,
    pub reconnect_delay_max: Option<u32>,
    pub max_remote_bitrate: Option<u32>,
    pub remote_sync: Option<bool>,
    pub scrobble_enabled: Option<bool>,
    pub dev_mode: Option<bool>,
    pub sync_name: Option<String>,
    pub sync_peers: Option<Vec<String>>,
}

/// A refused settings update (`400 VALIDATION_ERROR`), with its message and
/// the field it concerns.
#[derive(Debug)]
pub struct SettingsError {
    pub message: String,
    pub field: String,
}

/// Why an update is refused: the first profile name that does not parse
/// (its parser's message is handed in), then the first value out of range.
pub open spec fn spec_validate(
    body: UpdateSettingsBody,
    resource_error: Option<Seq<char>>,
    stream_error: Option<Seq<char>>,
    format_error: Option<Seq<char>>,
) -> Option<(Seq<char>, Seq<char>)> {
    if resource_error matches Some(m) {
        Some((resource_error->0, "resource_profile"@))
    } else if stream_error matches Some(m) {
        Some((stream_error->0, "stream_profile"@))
    } else if format_error matches Some(m) {
        Some((format_error->0, "format_policy"@))
    } else if body.job_max_concurrent matches Some(v) && !(1 <= v <= 32) {
        Some(("job_max_concurrent must be between 1 and 32"@, "job_max_concurrent"@))
    } else if body.backup_max_keep matches Some(v) && !(1 <= v <= 100) {
        Some(("backup_max_keep must be between 1 and 100"@, "backup_max_keep"@))
    } else if body.reconnect_delay_max matches Some(v) && !(5 <= v <= 3600) {
        Some(("reconnect_delay_max must be between 5 and 3600 seconds"@, "reconnect_delay_max"@))
    } else if body.max_remote_bitrate matches Some(v) && !(32000 <= v <= 20000000) {
        Some(("max_remote_bitrate must be between 32000 and 20000000 bps"@, "max_remote_bitrate"@))
    } else {
        None
    }
}

/// Whether an optional value, where present, lies in `lo..=hi`.
pub open spec fn absent_or_within(o: Option<u32>, lo: int, hi: int) -> bool {
    match o {
        Some(v) => lo <= v && v <= hi,
        None => true,
    }
}

/// An update is accepted exactly when every profile parses and every
/// numeric setting it gives lies in its range: 1 to 32 concurrent jobs, 1
/// to 100 kept backups, 5 to 3600 seconds of reconnect delay, 32000 to
/// 20000000 bps of remote bitrate.  A refusal names a field that is at
/// fault: a profile whose parser refused it, or a value out of its range;
/// with the profiles parsed, an out-of-range job count is the error named.
pub proof fn law_update_accepted_only_in_range(
    body: UpdateSettingsBody,
    resource_error: Option<Seq<char>>,
    stream_error: Option<Seq<char>>,
    format_error: Option<Seq<char>>,
)
    ensures
        spec_validate(body, resource_error, stream_error, format_error) is None <==> (resource_error is None
            && stream_error is None && format_error is None && absent_or_within(body.job_max_concurrent, 1, 32)
            && absent_or_within(body.backup_max_keep, 1, 100) && absent_or_within(
            body.reconnect_delay_max,
            5,
            3600,
        ) && absent_or_within(body.max_remote_bitrate, 32000, 20000000)),
        match spec_validate(body, resource_error, stream_error, format_error) {
            Some((_, f)) => {
                &&& f == "resource_profile"@ ==> resource_error is Some
                &&& f == "stream_profile"@ ==> stream_error is Some
                &&& f == "format_policy"@ ==> format_error is Some
                &&& f == "job_max_concurrent"@ ==> !absent_or_within(body.job_max_concurrent, 1, 32)
                &&& f == "backup_max_keep"@ ==> !absent_or_within(body.backup_max_keep, 1, 100)
                &&& f == "reconnect_delay_max"@ ==> !absent_or_within(body.reconnect_delay_max, 5, 3600)
                &&& f == "max_remote_bitrate"@ ==> !absent_or_within(
                    body.max_remote_bitrate,
                    32000,
                    20000000,
                )
            },
            None => true,
        },
        resource_error is None && stream_error is None && format_error is None && !absent_or_within(
            body.job_max_concurrent,
            1,
            32,
        ) ==> spec_validate(body, resource_error, stream_error, format_error) == Some(
            ("job_max_concurrent must be between 1 and 32"@, "job_max_concurrent"@),
        ),
{
    reveal_strlit("resource_profile");
    reveal_strlit("stream_profile");
    reveal_strlit("format_policy");
    reveal_strlit("job_max_concurrent");
    reveal_strlit("backup_max_keep");
    reveal_strlit("reconnect_delay_max");
    reveal_strlit("max_remote_bitrate");
    assert("job_max_concurrent"@[0] != "max_remote_bitrate"@[0]);
    assert("resource_profile"@.len() == 16 && "stream_profile"@.len() == 14 && "format_policy"@.len() == 13
        && "job_max_concurrent"@.len() == 18 && "backup_max_keep"@.len() == 15
        && "reconnect_delay_max"@.len() == 19 && "max_remote_bitrate"@.len() == 18);
}

fn refuse(message: &str, field: &str) -> (e: SettingsError)
    ensures
        e.message@ == message@,
        e.field@ == field@,
{
    SettingsError { message: String::from_str(message), field: String::from_str(field) }
}

/// Checks an update.  The profiles are parsed by their own parsers, whose
/// refusals are handed in (`None` where the profile is absent or parsed).
pub fn validate_update(
    body: &UpdateSettingsBody,
    resource_error: Option<&str>,
    stream_error: Option<&str>,
    format_error: Option<&str>,
) -> (r: Result<(), SettingsError>)
    ensures
        match spec_validate(
            *body,
            match resource_error {
                Some(m) => Some(m@),
                None => None,
            },
            match stream_error {
                Some(m) => Some(m@),
                None => None,
            },
            match format_error {
                Some(m) => Some(m@),
                None => None,
            },
        ) {
            Some((m, f)) => r matches Err(e) && e.message@ == m && e.field@ == f,
            None => r is Ok,
        },
{
    if let Some(m) = resource_error {
        return Err(refuse(m, "resource_profile"));
    }
    if let Some(m) = stream_error {
        return Err(refuse(m, "stream_profile"));
    }
    if let Some(m) = format_error {
        return Err(refuse(m, "format_policy"));
    }
    if let Some(v) = body.job_max_concurrent {
        if !(1 <= v && v <= 32) {
            return Err(refuse("job_max_concurrent must be between 1 and 32", "job_max_concurrent"));
        }
    }
    if let Some(v) = body.backup_max_keep {
        if !(1 <= v && v <= 100) {
            return Err(refuse("backup_max_keep must be between 1 and 100", "backup_max_keep"));
        }
    }
    if let Some(v) = body.reconnect_delay_max {
        if !(5 <= v && v <= 3600) {
            return Err(
                refuse("reconnect_delay_max must be between 5 and 3600 seconds", "reconnect_delay_max"),
            );
        }
    }
    if let Some(v) = body.max_remote_bitrate {
        if !(32000 <= v && v <= 20000000) {
            return Err(
                refuse(
                    "max_remote_bitrate must be between 32000 and 20000000 bps",
                    "max_remote_bitrate",
                ),
            );
        }
    }
    Ok(())
}

/// Whether an update needs a restart: any setting but the user-interface
/// preferences (language, theme, sidebar, cover art) does.
pub open spec fn spec_restart_required(b: UpdateSettingsBody) -> bool {
    b.resource_profile is Some || b.stream_profile is Some || b.format_policy is Some
        || b.auto_backup_enabled is Some || b.backup_max_keep is Some || b.job_max_concurrent is Some
        || b.reconnect_delay_max is Some || b.max_remote_bitrate is Some || b.remote_sync is Some
        || b.scrobble_enabled is Some || b.dev_mode is Some || b.sync_name is Some
        || b.sync_peers is Some
}

/// Whether an update needs a restart.
pub fn restart_required(b: &UpdateSettingsBody) -> (r: bool)
    ensures
        r == spec_restart_required(*b),
{
    b.resource_profile.is_some() || b.stream_profile.is_some() || b.format_policy.is_some()
        || b.auto_backup_enabled.is_some() || b.backup_max_keep.is_some()
        || b.job_max_concurrent.is_some() || b.reconnect_delay_max.is_some()
        || b.max_remote_bitrate.is_some() || b.remote_sync.is_some() || b.scrobble_enabled.is_some()
        || b.dev_mode.is_some() || b.sync_name.is_some() || b.sync_peers.is_some()
}

/// The user-interface preferences (language, theme, sidebar, cover art)
/// never decide whether an update needs a restart; every other setting an
/// update gives does, and an update that gives none of them needs none.
pub proof fn law_restart_ignores_preferences(
    b: UpdateSettingsBody,
    language: Option<String>,
    theme: Option<String>,
    sidebar_collapsed: Option<bool>,
    cover_art_enabled: Option<bool>,
)
    ensures
        spec_restart_required(
            UpdateSettingsBody { language, theme, sidebar_collapsed, cover_art_enabled, ..b },
        ) == spec_restart_required(b),
        b.resource_profile is Some || b.stream_profile is Some || b.format_policy is Some
            || b.job_max_concurrent is Some || b.backup_max_keep is Some || b.reconnect_delay_max is Some
            || b.max_remote_bitrate is Some || b.auto_backup_enabled is Some || b.remote_sync is Some
            || b.scrobble_enabled is Some || b.dev_mode is Some || b.sync_name is Some
            || b.sync_peers is Some ==> spec_restart_required(b),
        b.resource_profile is None && b.stream_profile is None && b.format_policy is None
            && b.job_max_concurrent is None && b.backup_max_keep is None && b.reconnect_delay_max is None
            && b.max_remote_bitrate is None && b.auto_backup_enabled is None && b.remote_sync is None
            && b.scrobble_enabled is None && b.dev_mode is None && b.sync_name is None
            && b.sync_peers is None ==> !spec_restart_required(b),
{
}

fn copy_strings(v: &Vec<String>) -> (r: Vec<String>)
    ensures
        texts(r@) == texts(v@),
{
    let mut r: Vec<String> = Vec::new();
    let mut i: usize = 0;
    while i < v.len()
        invariant
            i <= v@.len(),
            texts(r@) =~= texts(v@).take(i as int),
        decreases v.len() - i,
    {
        r.push(v[i].clone());
        proof {
            assert(texts(v@).take(i as int + 1) =~= texts(v@).take(i as int).push(v@[i as int]@));
        }
        i = i + 1;
    }
    proof {
        assert(texts(v@).take(v@.len() as int) =~= texts(v@));
    }
    r
}

/// The text an optional string gives, or `current`.
pub open spec fn or_text(o: Option<String>, current: Seq<char>) -> Seq<char> {
    match o {
        Some(s) => s@,
        None => current,
    }
}

/// The value an optional value gives, or `current`.
pub open spec fn or_value<T>(o: Option<T>, current: T) -> T {
    match o {
        Some(v) => v,
        None => current,
    }
}

/// Applies a checked update to the saved settings: every field it carries
/// replaces the saved one.
pub fn apply_update(cfg: &mut SettingsValues, b: &UpdateSettingsBody)
    ensures
        final(cfg).resource_profile@ == or_text(b.resource_profile, old(cfg).resource_profile@),
        final(cfg).stream_profile@ == or_text(b.stream_profile, old(cfg).stream_profile@),
        final(cfg).format_policy@ == or_text(b.format_policy, old(cfg).format_policy@),
        final(cfg).language@ == or_text(b.language, old(cfg).language@),
        final(cfg).theme@ == or_text(b.theme, old(cfg).theme@),
        final(cfg).sidebar_collapsed == or_value(b.sidebar_collapsed, old(cfg).sidebar_collapsed),
        final(cfg).cover_art_enabled == or_value(b.cover_art_enabled, old(cfg).cover_art_enabled),
        final(cfg).auto_backup_enabled == or_value(
            b.auto_backup_enabled,
            old(cfg).auto_backup_enabled,
        ),
        final(cfg).backup_max_keep == or_value(b.backup_max_keep, old(cfg).backup_max_keep),
        final(cfg).job_max_concurrent == or_value(b.job_max_concurrent, old(cfg).job_max_concurrent),
        final(cfg).reconnect_delay_max == or_value(
            b.reconnect_delay_max,
            old(cfg).reconnect_delay_max,
        ),
        final(cfg).max_remote_bitrate == or_value(b.max_remote_bitrate, old(cfg).max_remote_bitrate),
        final(cfg).remote_sync == or_value(b.remote_sync, old(cfg).remote_sync),
        final(cfg).scrobble_enabled == or_value(b.scrobble_enabled, old(cfg).scrobble_enabled),
        final(cfg).dev_mode == or_value(b.dev_mode, old(cfg).dev_mode),
        final(cfg).sync_name@ == or_text(b.sync_name, old(cfg).sync_name@),
        texts(final(cfg).sync_peers@) == match b.sync_peers {
            Some(p) => texts(p@),
            None => texts(old(cfg).sync_peers@),
        },
{
    set_text(&mut cfg.resource_profile, &b.resource_profile);
    set_text(&mut cfg.stream_profile, &b.stream_profile);
    set_text(&mut cfg.format_policy, &b.format_policy);
    set_text(&mut cfg.language, &b.language);
    set_text(&mut cfg.theme, &b.theme);
    set_bool(&mut cfg.sidebar_collapsed, b.sidebar_collapsed);
    set_bool(&mut cfg.cover_art_enabled, b.cover_art_enabled);
    set_bool(&mut cfg.auto_backup_enabled, b.auto_backup_enabled);
    set_u32(&mut cfg.backup_max_keep, b.backup_max_keep);
    set_u32(&mut cfg.job_max_concurrent, b.job_max_concurrent);
    set_u32(&mut cfg.reconnect_delay_max, b.reconnect_delay_max);
    set_u32(&mut cfg.max_remote_bitrate, b.max_remote_bitrate);
    set_bool(&mut cfg.remote_sync, b.remote_sync);
    set_bool(&mut cfg.scrobble_enabled, b.scrobble_enabled);
    set_bool(&mut cfg.dev_mode, b.dev_mode);
    set_text(&mut cfg.sync_name, &b.sync_name);
    if let Some(v) = &b.sync_peers {
        cfg.sync_peers = copy_strings(v);
    }
}

fn set_text(f: &mut String, o: &Option<String>)
    ensures
        final(f)@ == or_text(*o, old(f)@),
{
    if let Some(v) = o {
        *f = v.clone();
    }
}

fn set_bool(f: &mut bool, o: Option<bool>)
    ensures
        *final(f) == or_value(o, *old(f)),
{
    if let Some(v) = o {
        *f = v;
    }
}

fn set_u32(f: &mut u32, o: Option<u32>)
    ensures
        *final(f) == or_value(o, *old(f)),
{
    if let Some(v) = o {
        *f = v;
    }
}

/// A setting that waits for a restart is one whose saved value differs from
/// the running one: with nothing changed, nothing waits.
pub proof fn law_no_pending_restart_without_change(
    active: SettingsValues,
    saved: SettingsValues,
    env: Seq<Seq<char>>,
    n: int,
)
    requires
        0 <= n <= 13,
        forall|k: int| 0 <= k < 13 ==> !#[trigger] field_differs(saved, active, k),
    ensures
        pending_prefix(active, saved, env, n) == Seq::<Seq<char>>::empty(),
    decreases n,
{
    if n > 0 {
        law_no_pending_restart_without_change(active, saved, env, n - 1);
        assert(!field_differs(saved, active, n - 1));
    }
}


/// Whether the development bypass of the OpenSubsonic guard is switched on:
/// its value is `1` or, in any case, `true`.
pub open spec fn bypass_on(value: Option<Seq<char>>) -> bool {
    match value {
        Some(v) => v == "1"@ || unicode_lowercase(v) == "true"@,
        None => false,
    }
}

/// Whether the server may start with the configured OpenSubsonic and
/// authentication settings: an OpenSubsonic endpoint without authentication
/// would expose the whole library, so it is refused unless the development
/// bypass (`dev_bypass`, the bypass variable's value where it is set) is on.
pub fn opensubsonic_may_start(opensubsonic_enabled: bool, auth_enabled: bool, dev_bypass: Option<&str>) -> (r: bool)
    ensures
        r == (!opensubsonic_enabled || auth_enabled || bypass_on(
            match dev_bypass {
                Some(v) => Some(v@),
                None => None,
            },
        )),
{
    if !opensubsonic_enabled || auth_enabled {
        return true;
    }
    match dev_bypass {
        Some(v) => {
            if str_eq(v, "1") {
                true
            } else {
                let lower = to_lowercase(v);
                str_eq(lower.as_str(), "true")
            }
        },
        None => false,
    }
}
} // verus!
