//! Unix path texts: the file name, stem and extension of a path, and joining
//! a relative name onto a directory, as `std::path::Path` reads them.
use vstd::prelude::*;
use vstd::string::StringExecFns;

use crate::client_ip::split_on;
use crate::text::{chars_of, string_of};

verus! {

/// The last component of `pieces` that is a name: pieces that are empty or
/// `.` are no components; `..` is one but no name.
pub open spec fn last_name(pieces: Seq<Seq<char>>) -> Option<Seq<char>>
    decreases pieces.len(),
{
    if pieces.len() == 0 {
        None
    } else {
        let p = pieces.last();
        if p.len() == 0 || p == "."@ {
            last_name(pieces.drop_last())
        } else if p == ".."@ {
            None
        } else {
            Some(p)
        }
    }
}

/// The file name of a path (`Path::file_name`).
pub open spec fn file_name(path: Seq<char>) -> Option<Seq<char>> {
    last_name(split_on(path, '/'))
}

/// The index of the last `.` in `s`.
pub open spec fn last_dot(s: Seq<char>) -> Option<int>
    decreases s.len(),
{
    if s.len() == 0 {
        None
    } else if s.last() == '.' {
        Some(s.len() - 1)
    } else {
        last_dot(s.drop_last())
    }
}

/// The extension of a file name: what follows its last `.`, where some text
/// precedes that dot.
pub open spec fn name_extension(name: Seq<char>) -> Option<Seq<char>> {
    if name == ".."@ {
        None
    } else {
        match last_dot(name) {
            Some(k) => if k > 0 {
                Some(name.subrange(k + 1, name.len() as int))
            } else {
                None
            },
            None => None,
        }
    }
}

/// The stem of a file name: the text before the extension's dot, or the
/// whole name where it has no extension.
pub open spec fn name_stem(name: Seq<char>) -> Seq<char> {
    if name == ".."@ {
        name
    } else {
        match last_dot(name) {
            Some(k) => if k > 0 {
                name.subrange(0, k)
            } else {
                name
            },
            None => name,
        }
    }
}

/// The extension of a path (`Path::extension`).
pub open spec fn path_extension(path: Seq<char>) -> Option<Seq<char>> {
    match file_name(path) {
        Some(n) => name_extension(n),
        None => None,
    }
}

/// The stem of a path (`Path::file_stem`).
pub open spec fn path_stem(path: Seq<char>) -> Option<Seq<char>> {
    match file_name(path) {
        Some(n) => Some(name_stem(n)),
        None => None,
    }
}

/// `dir` joined with the relative name `name` (`Path::join`): a `/` goes
/// between them unless `dir` is empty or already ends in one.
pub open spec fn join(dir: Seq<char>, name: Seq<char>) -> Seq<char> {
    if dir.len() == 0 || dir.last() == '/' {
        dir + name
    } else {
        dir + "/"@ + name
    }
}

fn split_slashes(s: &[char]) -> (r: Vec<Vec<char>>)
    ensures
        r@.map_values(|p: Vec<char>| p@) == split_on(s@, '/'),
{
    let mut pieces: Vec<Vec<char>> = Vec::new();
    let mut cur: Vec<char> = Vec::new();
    let mut i: usize = 0;
    while i < s.len()
        invariant
            i <= s@.len(),
            pieces@.map_values(|p: Vec<char>| p@).push(cur@) == split_on(s@.take(i as int), '/'),
        decreases s.len() - i,
    {
        let c = s[i];
        proof {
            let pre = s@.take(i as int);
            let nxt = s@.take(i as int + 1);
            assert(nxt.drop_last() =~= pre);
            assert(nxt.last() == c);
        }
        let ghost old_pieces = pieces@.map_values(|p: Vec<char>| p@);
        let ghost old_cur = cur@;
        if c == '/' {
            let done = cur;
            pieces.push(done);
            cur = Vec::new();
            proof {
                assert(pieces@.map_values(|p: Vec<char>| p@) =~= old_pieces.push(old_cur));
                assert(pieces@.map_values(|p: Vec<char>| p@).push(cur@) =~= old_pieces.push(
                    old_cur,
                ).push(Seq::empty()));
            }
        } else {
            cur.push(c);
            proof {
                assert(pieces@.map_values(|p: Vec<char>| p@).push(cur@) =~= old_pieces.push(
                    old_cur,
                ).update(old_pieces.len() as int, old_cur.push(c)));
            }
        }
        i = i + 1;
    }
    proof {
        assert(s@.take(s@.len() as int) =~= s@);
    }
    let ghost before = pieces@.map_values(|p: Vec<char>| p@);
    pieces.push(cur);
    proof {
        assert(pieces@.map_values(|p: Vec<char>| p@) =~= before.push(cur@));
    }
    pieces
}

fn is_text(v: &Vec<char>, t: &str) -> (r: bool)
    ensures
        r == (v@ == t@),
{
    let tv = chars_of(t);
    if tv.len() != v.len() {
        return false;
    }
    let mut i: usize = 0;
    while i < v.len()
        invariant
            tv@ == t@,
            tv@.len() == v@.len(),
            i <= v@.len(),
            forall|j: int| 0 <= j < i ==> v@[j] == tv@[j],
        decreases v.len() - i,
    {
        if v[i] != tv[i] {
            return false;
        }
        i = i + 1;
    }
    proof {
        assert(v@ =~= t@);
    }
    true
}

/// The file name of a path, as characters.
pub fn file_name_chars(path: &[char]) -> (r: Option<Vec<char>>)
    ensures
        match r {
            Some(v) => file_name(path@) == Some(v@),
            None => file_name(path@) is None,
        },
{
    let pieces = split_slashes(path);
    let ghost all = pieces@.map_values(|p: Vec<char>| p@);
    let mut k: usize = pieces.len();
    proof {
        assert(all.take(k as int) =~= all);
    }
    while k > 0
        invariant
            k <= pieces@.len(),
            all == pieces@.map_values(|p: Vec<char>| p@),
            file_name(path@) == last_name(all.take(k as int)),
        decreases k,
    {
        let p = &pieces[k - 1];
        proof {
            assert(all.take(k as int).last() == p@);
            assert(all.take(k as int).drop_last() =~= all.take(k as int - 1));
        }
        if p.len() == 0 || is_text(p, ".") {
            k = k - 1;
        } else if is_text(p, "..") {
            return None;
        } else {
            let mut out: Vec<char> = Vec::new();
            let mut i: usize = 0;
            while i < p.len()
                invariant
                    i <= p@.len(),
                    out@ == p@.take(i as int),
                decreases p.len() - i,
            {
                out.push(p[i]);
                proof {
                    assert(p@.take(i as int + 1) =~= p@.take(i as int).push(p@[i as int]));
                }
                i = i + 1;
            }
            proof {
                assert(p@.take(p@.len() as int) =~= p@);
            }
            return Some(out);
        }
    }
    proof {
        assert(all.take(0) =~= Seq::<Seq<char>>::empty());
    }
    None
}

/// The index of the last `.` in `v`.
pub fn last_dot_index(v: &[char]) -> (r: Option<usize>)
    ensures
        match r {
            Some(k) => last_dot(v@) == Some(k as int) && k < v@.len(),
            None => last_dot(v@) is None,
        },
{
    let mut k: usize = v.len();
    proof {
        assert(v@.take(k as int) =~= v@);
    }
    while k > 0
        invariant
            k <= v@.len(),
            last_dot(v@) == last_dot(v@.take(k as int)),
        decreases k,
    {
        proof {
            assert(v@.take(k as int).drop_last() =~= v@.take(k as int - 1));
        }
        if v[k - 1] == '.' {
            return Some(k - 1);
        }
        k = k - 1;
    }
    proof {
        assert(v@.take(0) =~= Seq::<char>::empty());
    }
    None
}

fn copy_range(v: &[char], lo: usize, hi: usize) -> (r: Vec<char>)
    requires
        lo <= hi <= v@.len(),
    ensures
        r@ == v@.subrange(lo as int, hi as int),
{
    let mut out: Vec<char> = Vec::new();
    let mut i: usize = lo;
    while i < hi
        invariant
            lo <= i <= hi,
            hi <= v@.len(),
            out@ == v@.subrange(lo as int, i as int),
        decreases hi - i,
    {
        out.push(v[i]);
        proof {
            assert(v@.subrange(lo as int, i as int + 1) =~= v@.subrange(lo as int, i as int).push(
                v@[i as int],
            ));
        }
        i = i + 1;
    }
    out
}

/// The extension of a path, as characters.
pub fn extension_chars(path: &[char]) -> (r: Option<Vec<char>>)
    ensures
        match r {
            Some(v) => path_extension(path@) == Some(v@),
            None => path_extension(path@) is None,
        },
{
    let name = match file_name_chars(path) {
        Some(n) => n,
        None => {
            return None;
        },
    };
    if is_text(&name, "..") {
        return None;
    }
    match last_dot_index(name.as_slice()) {
        Some(k) => if k > 0 {
            assert(k < name.len());
            Some(copy_range(name.as_slice(), k + 1, name.len()))
        } else {
            None
        },
        None => None,
    }
}

/// The stem of a path, as characters.
pub fn stem_chars(path: &[char]) -> (r: Option<Vec<char>>)
    ensures
        match r {
            Some(v) => path_stem(path@) == Some(v@),
            None => path_stem(path@) is None,
        },
{
    let name = match file_name_chars(path) {
        Some(n) => n,
        None => {
            return None;
        },
    };
    if is_text(&name, "..") {
        return Some(name);
    }
    match last_dot_index(name.as_slice()) {
        Some(k) => if k > 0 {
            Some(copy_range(name.as_slice(), 0, k))
        } else {
            Some(name)
        },
        None => Some(name),
    }
}

/// Joins the relative name `name` onto the directory `dir`.
pub fn join_path(dir: &str, name: &str) -> (r: String)
    ensures
        r@ == join(dir@, name@),
{
    let d = chars_of(dir);
    let mut s = String::from_str(dir);
    if !(d.len() == 0 || d[d.len() - 1] == '/') {
        s.append("/");
    }
    s.append(name);
    s
}

} // verus!
