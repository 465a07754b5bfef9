//! First-run setup: the safety check before the server repairs the owner of
//! a directory, which it does only inside its own configuration and cache
//! directories and never in a music library.
use vstd::prelude::*;
use vstd::string::StringExecFns;

use crate::text::{chars_of, starts_with, str_eq, trim, trimmed};

verus! {

/// An error answer of the setup endpoints: HTTP status, code, message.
#[derive(Debug)]
pub struct SetupError {
    pub status: u16,
    pub code: String,
    pub message: String,
}

/// A request to repair the owner of a directory.
#[derive(Debug)]
pub struct FixPermsBody {
    pub path: Option<String>,
}

impl FixPermsBody {
    /// The directory named, trimmed; a missing or blank one is refused with
    /// `400 VALIDATION_ERROR`.
    pub fn target(&self) -> (r: Result<String, SetupError>)
        ensures
            match self.path {
                Some(p) => if trim(p@).len() > 0 {
                    r matches Ok(t) && t@ == trim(p@)
                } else {
                    r matches Err(e) && e.status == 400 && e.code@ == "VALIDATION_ERROR"@
                        && e.message@ == "path parameter is required"@
                },
                None => r matches Err(e) && e.status == 400 && e.code@ == "VALIDATION_ERROR"@
                    && e.message@ == "path parameter is required"@,
            },
    {
        match &self.path {
            Some(p) => {
                let t = trimmed(p.as_str());
                if t.as_str().unicode_len() > 0 {
                    return Ok(t);
                }
            },
            None => {},
        }
        Err(SetupError {
            status: 400,
            code: String::from_str("VALIDATION_ERROR"),
            message: String::from_str("path parameter is required"),
        })
    }
}

// ── Path components ───────────────────────────────────────────────

/// The components found so far in a path, and the component being read.
/// A leading `/` is the root component; empty components are skipped, and
/// so is `.` except as the first component of a relative path.
pub open spec fn scan_components(s: Seq<char>) -> (Seq<Seq<char>>, Seq<char>)
    decreases s.len(),
{
    if s.len() == 0 {
        (Seq::empty(), Seq::empty())
    } else if s.len() == 1 && s[0] == '/' {
        (seq![seq!['/']], Seq::empty())
    } else {
        let (done, cur) = scan_components(s.drop_last());
        if s.last() == '/' {
            (close_component(done, cur), Seq::empty())
        } else {
            (done, cur.push(s.last()))
        }
    }
}

/// The components after the component `cur` ends.
pub open spec fn close_component(done: Seq<Seq<char>>, cur: Seq<char>) -> Seq<Seq<char>> {
    if cur.len() == 0 || (cur == seq!['.'] && done.len() > 0) {
        done
    } else {
        done.push(cur)
    }
}

/// The components of a path, as `std::path::Path::components` reads a Unix
/// path.
pub open spec fn path_components(s: Seq<char>) -> Seq<Seq<char>> {
    close_component(scan_components(s).0, scan_components(s).1)
}

/// Whether path `p` is `base` or lies under it, component by component, as
/// `std::path::Path::starts_with` decides.
pub open spec fn path_within(p: Seq<char>, base: Seq<char>) -> bool {
    path_components(base).is_prefix_of(path_components(p))
}

/// The texts of a list of components.
pub open spec fn texts(v: Seq<Vec<char>>) -> Seq<Seq<char>> {
    v.map_values(|c: Vec<char>| c@)
}

fn close_exec(done: &mut Vec<Vec<char>>, cur: Vec<char>)
    ensures
        texts(final(done)@) == close_component(texts(old(done)@), cur@),
{
    let dot = cur.len() == 1 && cur[0] == '.';
    proof {
        if cur@ == seq!['.'] {
            assert(cur@.len() == 1 && cur@[0] == '.');
        }
        if dot {
            assert(cur@ =~= seq!['.']);
        }
    }
    if cur.len() == 0 || (dot && done.len() > 0) {
    } else {
        done.push(cur);
        proof {
            assert(texts(done@) =~= texts(old(done)@).push(cur@));
        }
    }
}

/// The components of a path.
pub fn components(path: &str) -> (r: Vec<Vec<char>>)
    ensures
        texts(r@) == path_components(path@),
{
    let v = chars_of(path);
    let mut done: Vec<Vec<char>> = Vec::new();
    let mut cur: Vec<char> = Vec::new();
    let mut i: usize = 0;
    while i < v.len()
        invariant
            v@ == path@,
            i <= v.len(),
            (texts(done@), cur@) == scan_components(v@.take(i as int)),
        decreases v.len() - i,
    {
        proof {
            assert(v@.take(i as int + 1).drop_last() =~= v@.take(i as int));
        }
        let c = v[i];
        if c == '/' {
            if i == 0 {
                let mut root: Vec<char> = Vec::new();
                root.push('/');
                done.push(root);
                proof {
                    assert(texts(done@) =~= seq![seq!['/']]);
                }
            } else {
                let finished = cur;
                cur = Vec::new();
                close_exec(&mut done, finished);
            }
        } else {
            cur.push(c);
        }
        i = i + 1;
    }
    proof {
        assert(v@.take(i as int) =~= v@);
    }
    close_exec(&mut done, cur);
    done
}

fn same_chars(a: &Vec<char>, b: &Vec<char>) -> (r: bool)
    ensures
        r == (a@ == b@),
{
    if a.len() != b.len() {
        return false;
    }
    let mut i: usize = 0;
    while i < a.len()
        invariant
            a.len() == b.len(),
            i <= a.len(),
            forall|j: int| 0 <= j < i ==> a@[j] == b@[j],
        decreases a.len() - i,
    {
        if a[i] != b[i] {
            return false;
        }
        i = i + 1;
    }
    proof {
        assert(a@ =~= b@);
    }
    true
}

/// Whether path `p` is `base` or lies under it.
pub fn is_within(p: &str, base: &str) -> (r: bool)
    ensures
        r == path_within(p@, base@),
{
    let pc = components(p);
    let bc = components(base);
    if bc.len() > pc.len() {
        return false;
    }
    let mut i: usize = 0;
    while i < bc.len()
        invariant
            bc.len() <= pc.len(),
            i <= bc.len(),
            texts(pc@) == path_components(p@),
            texts(bc@) == path_components(base@),
            forall|j: int| 0 <= j < i ==> bc@[j]@ == pc@[j]@,
        decreases bc.len() - i,
    {
        if !same_chars(&bc[i], &pc[i]) {
            proof {
                assert(texts(bc@)[i as int] != texts(pc@).subrange(0, bc.len() as int)[i as int]);
            }
            return false;
        }
        i = i + 1;
    }
    proof {
        assert(texts(bc@) =~= texts(pc@).subrange(0, bc.len() as int));
    }
    true
}

// ── The check ─────────────────────────────────────────────────────

/// Whether a target lies in the music library: it is `/music` or under it
/// by name, or its resolved path lies in one of the music directories.
pub open spec fn in_music_library(target: Seq<char>, resolved: Seq<char>, music: Seq<String>) -> bool {
    ||| target == "/music"@
    ||| "/music/"@.is_prefix_of(target)
    ||| exists|i: int| 0 <= i < music.len() && path_within(resolved, music[i]@)
}

/// Whether a resolved path lies in one of the server's own directories
/// (each given when it could be resolved).
pub open spec fn in_own_directories(resolved: Seq<char>, config_dir: Option<String>, cache_dir: Option<String>) -> bool {
    ||| (config_dir matches Some(c) && path_within(resolved, c@))
    ||| (cache_dir matches Some(c) && path_within(resolved, c@))
}

/// Decides whether the owner of `target` may be repaired.  `resolved` is
/// the target with links resolved, `music_dirs` the resolved music
/// directories, and `config_dir` and `cache_dir` the resolved directories of
/// the server's configuration and cache.  A target in the music library is
/// refused, and so is one outside the server's own directories; both with
/// `403 UNSAFE_TARGET`.
pub fn check_fix_perms(
    target: &str,
    resolved: &str,
    music_dirs: &Vec<String>,
    config_dir: &Option<String>,
    cache_dir: &Option<String>,
) -> (r: Result<(), SetupError>)
    ensures
        in_music_library(target@, resolved@, music_dirs@) ==> (r matches Err(e) && e.status == 403
            && e.code@ == "UNSAFE_TARGET"@
            && e.message@ == "permission fix is strictly forbidden on music library paths"@),
        !in_music_library(target@, resolved@, music_dirs@) && !in_own_directories(
            resolved@,
            *config_dir,
            *cache_dir,
        ) ==> (r matches Err(e) && e.status == 403 && e.code@ == "UNSAFE_TARGET"@
            && e.message@
            == "permission fix is only allowed on application config and cache directories"@),
        r is Ok <==> (!in_music_library(target@, resolved@, music_dirs@) && in_own_directories(
            resolved@,
            *config_dir,
            *cache_dir,
        )),
{
    let mut music = str_eq(target, "/music") || starts_with(target, "/music/");
    let mut i: usize = 0;
    while i < music_dirs.len() && !music
        invariant
            i <= music_dirs.len(),
            music == (target@ == "/music"@ || "/music/"@.is_prefix_of(target@) || exists|j: int|
                0 <= j < i && path_within(resolved@, music_dirs@[j]@)),
        decreases music_dirs.len() - i,
    {
        if is_within(resolved, music_dirs[i].as_str()) {
            music = true;
        }
        i = i + 1;
    }
    proof {
        if !music {
            assert(i == music_dirs.len());
        }
    }
    if music {
        return Err(SetupError {
            status: 403,
            code: String::from_str("UNSAFE_TARGET"),
            message: String::from_str("permission fix is strictly forbidden on music library paths"),
        });
    }
    let in_config = match config_dir {
        Some(c) => is_within(resolved, c.as_str()),
        None => false,
    };
    let in_cache = match cache_dir {
        Some(c) => is_within(resolved, c.as_str()),
        None => false,
    };
    if !in_config && !in_cache {
        return Err(SetupError {
            status: 403,
            code: String::from_str("UNSAFE_TARGET"),
            message: String::from_str(
                "permission fix is only allowed on application config and cache directories",
            ),
        });
    }
    Ok(())
}


/// No target that lies in a music directory is ever repaired: such a
/// target counts as part of the music library, which `check_fix_perms`
/// refuses.
pub proof fn law_music_dirs_never_repaired(
    target: Seq<char>,
    resolved: Seq<char>,
    music: Seq<String>,
    i: int,
)
    requires
        0 <= i < music.len(),
        path_within(resolved, music[i]@),
    ensures
        in_music_library(target, resolved, music),
{
}

/// Every path lies within itself.
pub proof fn law_path_within_itself(p: Seq<char>)
    ensures
        path_within(p, p),
{
    assert(path_components(p) =~= path_components(p).subrange(0, path_components(p).len() as int));
}

} // verus!
