//! POSIX-style path text manipulation: joining, absolutizing against a
//! working directory, parent and file-name extraction, and splitting a
//! path into its components.

use vstd::prelude::*;
use vstd::string::*;
use crate::text::spec_rfind;
use crate::text::rfind_before;

verus! {

/// An absolute path starts with `/`.
pub open spec fn is_abs(s: Seq<char>) -> bool {
    s.len() > 0 && s[0] == '/'
}

/// `dir` with `name` appended under it, inserting `/` unless `dir`
/// already ends with one.
pub open spec fn spec_join(dir: Seq<char>, name: Seq<char>) -> Seq<char> {
    if dir.len() > 0 && dir[dir.len() - 1] == '/' {
        dir + name
    } else {
        dir + seq!['/'] + name
    }
}

/// Joins `name` under `dir`.
pub fn join_under(dir: &str, name: &str) -> (r: String)
    ensures
        r@ == spec_join(dir@, name@),
{
    let n = dir.unicode_len();
    let mut s = String::from_str(dir);
    if !(n > 0 && dir.get_char(n - 1) == '/') {
        proof {
            reveal_strlit("/");
        }
        s.append("/");
    }
    s.append(name);
    proof {
        assert(s@ =~= spec_join(dir@, name@));
    }
    s
}

/// The caller-supplied path resolved against the remembered working
/// directory: absolute paths pass through, relative ones are joined.
pub open spec fn spec_absolutize(wrkdir: Seq<char>, p: Seq<char>) -> Seq<char> {
    if is_abs(p) {
        p
    } else {
        spec_join(wrkdir, p)
    }
}

pub fn absolutize(wrkdir: &str, p: &str) -> (r: String)
    ensures
        r@ == spec_absolutize(wrkdir@, p@),
{
    let n = p.unicode_len();
    if n > 0 && p.get_char(0) == '/' {
        String::from_str(p)
    } else {
        join_under(wrkdir, p)
    }
}

/// Largest prefix length `<= j` that does not end with `/`; never goes
/// below zero.
pub open spec fn spec_strip_trail(s: Seq<char>, j: nat) -> nat
    decreases j,
{
    if j == 0 {
        0
    } else if s[j - 1] == '/' {
        spec_strip_trail(s, (j - 1) as nat)
    } else {
        j
    }
}

fn strip_trail(s: &str, n: usize, j: usize) -> (r: usize)
    requires
        n == s@.len(),
        j <= n,
    ensures
        r == spec_strip_trail(s@, j as nat),
        r <= j,
    decreases j,
{
    if j > 0 && s.get_char(j - 1) == '/' {
        strip_trail(s, n, j - 1)
    } else {
        j
    }
}

/// The last path component of `s`: the text after the final `/` once
/// trailing slashes are ignored. Empty when `s` is empty, all slashes,
/// or ends in an empty component.
pub open spec fn spec_last_component(s: Seq<char>) -> Seq<char> {
    let j = spec_strip_trail(s, s.len());
    let k = spec_rfind(s, j, '/');
    s.subrange(k + 1, j as int)
}

pub fn last_component(s: &str, n: usize) -> (r: String)
    requires
        n == s@.len(),
    ensures
        r@ == spec_last_component(s@),
{
    let j = strip_trail(s, n, n);
    let k: usize = match rfind_before(s, n, j, '/') {
        Some(k) => k + 1,
        None => 0,
    };
    let piece = s.substring_char(k, j);
    String::from_str(piece)
}

/// The file name of a path, in the manner of a directory entry: the last
/// component, unless it is empty, `.` or `..`.
pub open spec fn spec_file_name(s: Seq<char>) -> Option<Seq<char>> {
    let c = spec_last_component(s);
    if c.len() == 0 || c == seq!['.'] || c == seq!['.', '.'] {
        None
    } else {
        Some(c)
    }
}

pub fn file_name_of(s: &str, n: usize) -> (r: Option<String>)
    requires
        n == s@.len(),
    ensures
        match r {
            Some(name) => spec_file_name(s@) == Some(name@),
            None => spec_file_name(s@) is None,
        },
{
    let c = last_component(s, n);
    let cn = c.as_str().unicode_len();
    let dot1 = cn == 1 && c.as_str().get_char(0) == '.';
    let dot2 = cn == 2 && c.as_str().get_char(0) == '.' && c.as_str().get_char(1) == '.';
    proof {
        if dot1 {
            assert(c@ =~= seq!['.']);
        }
        if dot2 {
            assert(c@ =~= seq!['.', '.']);
        }
        if cn != 1 {
            assert(c@ != seq!['.']);
        }
        if cn != 2 {
            assert(c@ != seq!['.', '.']);
        }
    }
    if cn == 0 || dot1 || dot2 {
        None
    } else {
        Some(c)
    }
}

/// The parent of an absolute path: the path with its last component
/// removed, `/` when the component sits directly under the root, and
/// nothing when the path is the root itself.
pub open spec fn spec_parent(s: Seq<char>) -> Option<Seq<char>> {
    let j = spec_strip_trail(s, s.len());
    if j <= 1 {
        None
    } else {
        let k = spec_rfind(s, j, '/');
        if k <= 0 {
            Some(s.subrange(0, 1))
        } else {
            let l = spec_strip_trail(s, k as nat);
            if l == 0 {
                Some(s.subrange(0, 1))
            } else {
                Some(s.subrange(0, l as int))
            }
        }
    }
}

pub fn parent_of(s: &str, n: usize) -> (r: Option<String>)
    requires
        n == s@.len(),
        is_abs(s@),
    ensures
        match r {
            Some(p) => spec_parent(s@) == Some(p@),
            None => spec_parent(s@) is None,
        },
{
    let j = strip_trail(s, n, n);
    if j <= 1 {
        return None;
    }
    match rfind_before(s, n, j, '/') {
        Some(k) => {
            if k == 0 {
                Some(String::from_str(s.substring_char(0, 1)))
            } else {
                let l = strip_trail(s, n, k);
                if l == 0 {
                    Some(String::from_str(s.substring_char(0, 1)))
                } else {
                    Some(String::from_str(s.substring_char(0, l)))
                }
            }
        },
        None => {
            // An absolute path always holds a slash before any content.
            proof {
                crate::paths::lemma_rfind_finds(s@, j as nat, '/', 0);
            }
            Some(String::from_str(s.substring_char(0, 1)))
        },
    }
}

/// `spec_rfind` cannot miss an occurrence below its bound.
pub proof fn lemma_rfind_finds(s: Seq<char>, j: nat, c: char, i: int)
    requires
        0 <= i < j <= s.len(),
        s[i] == c,
    ensures
        spec_rfind(s, j, c) >= i,
    decreases j,
{
    if j - 1 > i && s[j - 1] != c {
        lemma_rfind_finds(s, (j - 1) as nat, c, i);
    }
}

/// First index at or after `i` holding `/`, or the end of the text.
pub open spec fn spec_comp_end(s: Seq<char>, i: nat) -> nat
    decreases s.len() - i,
{
    if i >= s.len() {
        s.len()
    } else if s[i as int] == '/' {
        i
    } else {
        spec_comp_end(s, i + 1)
    }
}

fn comp_end(s: &str, n: usize, i: usize) -> (r: usize)
    requires
        n == s@.len(),
        i <= n,
    ensures
        r == spec_comp_end(s@, i as nat),
        i <= r <= n,
    decreases n - i,
{
    if i < n && s.get_char(i) != '/' {
        comp_end(s, n, i + 1)
    } else {
        i
    }
}

/// `spec_comp_end` stays inside the text and makes progress on a
/// component character.
pub proof fn lemma_comp_end_bounds(s: Seq<char>, i: nat)
    requires
        i <= s.len(),
    ensures
        i <= spec_comp_end(s, i) <= s.len(),
        i < s.len() && s[i as int] != '/' ==> spec_comp_end(s, i) > i,
    decreases s.len() - i,
{
    if i < s.len() && s[i as int] != '/' {
        lemma_comp_end_bounds(s, i + 1);
    }
}

/// The path components of `s` from index `i` on: maximal slash-free
/// pieces, with empty and `.` pieces dropped.
pub open spec fn spec_components(s: Seq<char>, i: nat) -> Seq<Seq<char>>
    decreases s.len() - i,
    via spec_components_decreases
{
    if i >= s.len() {
        Seq::empty()
    } else if s[i as int] == '/' {
        spec_components(s, i + 1)
    } else {
        let e = spec_comp_end(s, i);
        let c = s.subrange(i as int, e as int);
        if c == seq!['.'] {
            spec_components(s, e)
        } else {
            seq![c] + spec_components(s, e)
        }
    }
}

#[via_fn]
proof fn spec_components_decreases(s: Seq<char>, i: nat) {
    if i < s.len() && s[i as int] != '/' {
        lemma_comp_end_bounds(s, i);
    }
}

fn components_from(s: &str, n: usize, i: usize) -> (r: Vec<String>)
    requires
        n == s@.len(),
        i <= n,
    ensures
        r.deep_view() == spec_components(s@, i as nat),
    decreases n - i,
{
    if i >= n {
        let r: Vec<String> = Vec::new();
        proof {
            assert(r.deep_view() =~= spec_components(s@, i as nat));
        }
        return r;
    }
    if s.get_char(i) == '/' {
        return components_from(s, n, i + 1);
    }
    let e = comp_end(s, n, i);
    proof {
        lemma_comp_end_bounds(s@, i as nat);
        assert(e > i);
    }
    let is_dot = e - i == 1 && s.get_char(i) == '.';
    proof {
        let c = s@.subrange(i as int, e as int);
        if is_dot {
            assert(c =~= seq!['.']);
        } else if e - i == 1 {
            assert(c != seq!['.']) by {
                assert(c[0] == s@[i as int]);
            }
        } else {
            assert(c.len() == e - i);
            assert(c != seq!['.']);
        }
    }
    if is_dot {
        components_from(s, n, e)
    } else {
        let piece = String::from_str(s.substring_char(i, e));
        let mut rest = components_from(s, n, e);
        rest.insert(0, piece);
        proof {
            assert(rest.deep_view() =~= spec_components(s@, i as nat));
        }
        rest
    }
}

/// Splits a path into its components, dropping empty and `.` pieces.
pub fn components_of(s: &str) -> (r: Vec<String>)
    ensures
        r.deep_view() == spec_components(s@, 0),
{
    let n = s.unicode_len();
    components_from(s, n, 0)
}

/// The components from `from` on, each preceded by `/`.
pub open spec fn spec_join_abs(ps: Seq<Seq<char>>, from: int) -> Seq<char>
    decreases ps.len() - from,
{
    if from < 0 || from >= ps.len() {
        Seq::empty()
    } else {
        seq!['/'] + ps[from] + spec_join_abs(ps, from + 1)
    }
}

/// The components from `from` on, joined with `/` and no leading slash.
pub open spec fn spec_join_rel(ps: Seq<Seq<char>>, from: int) -> Seq<char> {
    if from < 0 || from >= ps.len() {
        Seq::empty()
    } else {
        ps[from] + spec_join_abs(ps, from + 1)
    }
}

/// Joins the components from `from` on into an absolute path; the empty
/// suffix yields the empty text, not `/`.
pub fn join_components_abs(ps: &Vec<String>, from: usize) -> (r: String)
    requires
        from <= ps.len(),
    ensures
        r@ == spec_join_abs(ps.deep_view(), from as int),
    decreases ps.len() - from,
{
    if from >= ps.len() {
        let r = String::new();
        proof {
            assert(r@ =~= spec_join_abs(ps.deep_view(), from as int));
        }
        r
    } else {
        proof {
            reveal_strlit("/");
        }
        let mut s = String::from_str("/");
        s.append(ps[from].as_str());
        let rest = join_components_abs(ps, from + 1);
        s.append(rest.as_str());
        proof {
            assert(ps.deep_view()[from as int] == ps[from as int]@);
            assert(s@ =~= spec_join_abs(ps.deep_view(), from as int));
        }
        s
    }
}

/// Joins the components from `from` on into a relative path.
pub fn join_components_rel(ps: &Vec<String>, from: usize) -> (r: String)
    requires
        from <= ps.len(),
    ensures
        r@ == spec_join_rel(ps.deep_view(), from as int),
{
    if from >= ps.len() {
        let r = String::new();
        proof {
            assert(r@ =~= spec_join_rel(ps.deep_view(), from as int));
        }
        r
    } else {
        let mut s = String::new();
        s.append(ps[from].as_str());
        let rest = join_components_abs(ps, from + 1);
        s.append(rest.as_str());
        proof {
            assert(ps.deep_view()[from as int] == ps[from as int]@);
            assert(s@ =~= spec_join_rel(ps.deep_view(), from as int));
        }
        s
    }
}

} // verus!
