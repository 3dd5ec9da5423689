//! The listing parser: turns one line of `ls -l` / `ls -ld` output into a
//! structured file entry.
//!
//! A line must have the fixed shape
//! `<kind><9 permission chars> <links> <owner> <group> <size> <month> <day>
//! <year|hh:mm> <name[ -> target]>`; anything else is rejected. Device,
//! pipe and socket entries are not representable and are rejected via
//! their kind character.

use vstd::prelude::*;
use vstd::string::*;
use crate::text::{
    is_word_char, all_digits, digits_val, spec_skip_ws, spec_token_end,
    spec_find_char_before, skip_ws, token_end, all_digits_range, parse_uint, find_char_before,
};
use crate::paths::{spec_file_name, spec_join, file_name_of, join_under};

verus! {

/// The kind of a directory entry. Only these three kinds are
/// representable; other listing kinds are rejected by the parser.
#[derive(Clone, Copy, Debug, PartialEq, Eq, Structural)]
pub enum FileKind {
    Regular,
    Directory,
    Symlink,
}

/// One permission class triple, each class an octal digit built from
/// read (4), write (2) and execute (1).
#[derive(Clone, Copy, Debug, PartialEq, Eq, Structural)]
pub struct Pex {
    pub owner: u8,
    pub group: u8,
    pub other: u8,
}

impl Pex {
    pub open spec fn wf(self) -> bool {
        self.owner < 8 && self.group < 8 && self.other < 8
    }

    /// The combined numeric mode, as `chmod` reads it in octal.
    pub fn to_mode(&self) -> (r: u32)
        requires
            self.wf(),
        ensures
            r == self.owner * 64 + self.group * 8 + self.other,
            r < 512,
    {
        (self.owner as u32) * 64 + (self.group as u32) * 8 + (self.other as u32)
    }
}

/// The modification timestamp as the listing states it: either with a
/// year, or with a clock time and the year left implicit. A missing
/// timestamp stands for the start of the epoch; the field is
/// best-effort and never rejects an entry.
#[derive(Clone, Copy, Debug, PartialEq, Eq, Structural)]
pub enum LsTime {
    WithYear { month: u8, day: u8, year: u32 },
    WithClock { month: u8, day: u8, hour: u8, minute: u8 },
}

/// One parsed directory entry.
#[derive(Clone, Debug, PartialEq)]
pub struct FileEntry {
    pub path: String,
    pub kind: FileKind,
    pub pex: Option<Pex>,
    pub uid: Option<u32>,
    pub gid: Option<u32>,
    pub size: u64,
    pub modified: Option<LsTime>,
    pub symlink: Option<String>,
}

/// The mathematical value of a `FileEntry`.
pub struct FileEntryV {
    pub path: Seq<char>,
    pub kind: FileKind,
    pub pex: Option<Pex>,
    pub uid: Option<u32>,
    pub gid: Option<u32>,
    pub size: u64,
    pub modified: Option<LsTime>,
    pub symlink: Option<Seq<char>>,
}

impl View for FileEntry {
    type V = FileEntryV;

    open spec fn view(&self) -> FileEntryV {
        FileEntryV {
            path: self.path@,
            kind: self.kind,
            pex: self.pex,
            uid: self.uid,
            gid: self.gid,
            size: self.size,
            modified: self.modified,
            symlink: match self.symlink {
                Some(t) => Some(t@),
                None => None,
            },
        }
    }
}

impl DeepView for FileEntry {
    type V = FileEntryV;

    open spec fn deep_view(&self) -> FileEntryV {
        self.view()
    }
}

impl FileEntryV {
    /// An entry is a symlink exactly when it carries a target.
    pub open spec fn wf(self) -> bool {
        &&& (self.kind is Symlink <==> self.symlink is Some)
        &&& (self.pex is Some ==> self.pex->0.wf())
    }
}

impl FileEntry {
    pub open spec fn wf(&self) -> bool {
        self@.wf()
    }

    /// The entry's file name: the last component of its path.
    pub fn name(&self) -> (r: String)
        ensures
            r@ == crate::paths::spec_last_component(self.path@),
    {
        let n = self.path.as_str().unicode_len();
        crate::paths::last_component(self.path.as_str(), n)
    }

    /// The extension of the entry's name: the text after the final dot,
    /// or nothing when the name holds no dot.
    pub fn extension(&self) -> (r: Option<String>)
        ensures
            ({
                let nm = crate::paths::spec_last_component(self.path@);
                let k = crate::text::spec_rfind(nm, nm.len(), '.');
                match r {
                    Some(e) => k >= 0 && e@ == nm.subrange(k + 1, nm.len() as int),
                    None => k == -1,
                }
            }),
    {
        let nm = self.name();
        let n = nm.as_str().unicode_len();
        match crate::text::rfind_before(nm.as_str(), n, n, '.') {
            Some(k) => Some(String::from_str(nm.as_str().substring_char(k + 1, n))),
            None => None,
        }
    }
}

pub open spec fn is_kind_char(c: char) -> bool {
    c == '-' || c == 'l' || c == 'd'
}

pub open spec fn is_perm_char(c: char) -> bool {
    c == '-' || c == 'r' || c == 'w' || c == 'x' || c == 's' || c == 'S' || c == 't' || c == 'T'
}

/// The value of one 3-character permission group: any non-`-` in the
/// first two slots grants read / write, any non-`-` in the third slot
/// (this covers `x` and the special bits `s`, `S`, `t`, `T`) grants
/// execute.
pub open spec fn spec_group_val(s: Seq<char>, base: int) -> int {
    (if s[base] != '-' { 4int } else { 0int })
    + (if s[base + 1] != '-' { 2int } else { 0int })
    + (if s[base + 2] != '-' { 1int } else { 0int })
}

/// The permission triple of a 9-character permission string.
pub open spec fn spec_pex(perm: Seq<char>) -> Pex {
    Pex {
        owner: spec_group_val(perm, 0) as u8,
        group: spec_group_val(perm, 3) as u8,
        other: spec_group_val(perm, 6) as u8,
    }
}

/// Case-insensitive match of `c` against the lower-case letter `l`.
pub open spec fn ci_eq(c: char, l: char) -> bool {
    c == l || c as int == l as int - 32
}

/// The month number of a three-letter English month abbreviation,
/// matched case-insensitively.
pub open spec fn spec_month_num(a: char, b: char, c: char) -> Option<u8> {
    if ci_eq(a, 'j') && ci_eq(b, 'a') && ci_eq(c, 'n') { Some(1u8) }
    else if ci_eq(a, 'f') && ci_eq(b, 'e') && ci_eq(c, 'b') { Some(2u8) }
    else if ci_eq(a, 'm') && ci_eq(b, 'a') && ci_eq(c, 'r') { Some(3u8) }
    else if ci_eq(a, 'a') && ci_eq(b, 'p') && ci_eq(c, 'r') { Some(4u8) }
    else if ci_eq(a, 'm') && ci_eq(b, 'a') && ci_eq(c, 'y') { Some(5u8) }
    else if ci_eq(a, 'j') && ci_eq(b, 'u') && ci_eq(c, 'n') { Some(6u8) }
    else if ci_eq(a, 'j') && ci_eq(b, 'u') && ci_eq(c, 'l') { Some(7u8) }
    else if ci_eq(a, 'a') && ci_eq(b, 'u') && ci_eq(c, 'g') { Some(8u8) }
    else if ci_eq(a, 's') && ci_eq(b, 'e') && ci_eq(c, 'p') { Some(9u8) }
    else if ci_eq(a, 'o') && ci_eq(b, 'c') && ci_eq(c, 't') { Some(10u8) }
    else if ci_eq(a, 'n') && ci_eq(b, 'o') && ci_eq(c, 'v') { Some(11u8) }
    else if ci_eq(a, 'd') && ci_eq(b, 'e') && ci_eq(c, 'c') { Some(12u8) }
    else { None }
}

/// Is ` -> ` present at position `k` of `t`?
pub open spec fn spec_arrow_at(t: Seq<char>, k: int) -> bool {
    &&& 0 <= k
    &&& k + 4 <= t.len()
    &&& t[k] == ' '
    &&& t[k + 1] == '-'
    &&& t[k + 2] == '>'
    &&& t[k + 3] == ' '
}

/// The first position of ` -> ` at or after `i`, or `-1`.
pub open spec fn spec_find_arrow(t: Seq<char>, i: nat) -> int
    decreases t.len() + 4 - i,
{
    if i + 4 > t.len() {
        -1
    } else if spec_arrow_at(t, i as int) {
        i as int
    } else {
        spec_find_arrow(t, i + 1)
    }
}

/// Splits a name token on the first ` -> ` separator: the file name
/// before it, and, when it is present, the link target between it and
/// the next separator or the end.
pub open spec fn spec_split_arrow(t: Seq<char>) -> (Seq<char>, Option<Seq<char>>) {
    let f = spec_find_arrow(t, 0);
    if f < 0 {
        (t, None)
    } else {
        let g = spec_find_arrow(t, (f + 4) as nat);
        let stop = if g < 0 { t.len() as int } else { g };
        (t.subrange(0, f), Some(t.subrange(f + 4, stop)))
    }
}

/// The sanitized file name of a name token: its last path component,
/// or the token itself where no proper component can be taken.
pub open spec fn spec_sanitize(t: Seq<char>) -> Seq<char> {
    match spec_file_name(t) {
        Some(x) => x,
        None => t,
    }
}

/// The timestamp of an entry, best effort: a recognized English month,
/// a day between 1 and 31 and, for the clock form, a valid time of day;
/// anything else leaves the timestamp empty (the start of the epoch).
pub open spec fn spec_ls_time(
    mon: Option<u8>,
    day: int,
    year_form: bool,
    year: int,
    hour: int,
    minute: int,
) -> Option<LsTime> {
    match mon {
        None => None,
        Some(m) => {
            if !(1 <= day <= 31) {
                None
            } else if year_form {
                Some(LsTime::WithYear { month: m, day: day as u8, year: year as u32 })
            } else if 0 <= hour <= 23 && 0 <= minute <= 59 {
                Some(LsTime::WithClock {
                    month: m,
                    day: day as u8,
                    hour: hour as u8,
                    minute: minute as u8,
                })
            } else {
                None
            }
        },
    }
}

/// What one listing line means: the parsed entry, or nothing when the
/// line does not have the required shape.
pub open spec fn spec_parse_line(dir: Seq<char>, line: Seq<char>) -> Option<FileEntryV> {
    let n = line.len() as int;
    let e0 = spec_token_end(line, 0) as int;
    let i1 = spec_skip_ws(line, e0 as nat) as int;
    let e1 = spec_token_end(line, i1 as nat) as int;
    let i2 = spec_skip_ws(line, e1 as nat) as int;
    let e2 = spec_token_end(line, i2 as nat) as int;
    let i3 = spec_skip_ws(line, e2 as nat) as int;
    let e3 = spec_token_end(line, i3 as nat) as int;
    let i4 = spec_skip_ws(line, e3 as nat) as int;
    let e4 = spec_token_end(line, i4 as nat) as int;
    let i5 = spec_skip_ws(line, e4 as nat) as int;
    let e5 = spec_token_end(line, i5 as nat) as int;
    let i6 = spec_skip_ws(line, e5 as nat) as int;
    let e6 = spec_token_end(line, i6 as nat) as int;
    let i7 = spec_skip_ws(line, e6 as nat) as int;
    let e7 = spec_token_end(line, i7 as nat) as int;
    let i8 = spec_skip_ws(line, e7 as nat) as int;
    if !(e0 == 10 && is_kind_char(line[0])
        && (forall|k: int| 1 <= k < 10 ==> is_perm_char(#[trigger] line[k]))
        && e1 > i1 && all_digits(line.subrange(i1, e1))
        && e2 > i2 && e3 > i3
        && e4 > i4 && all_digits(line.subrange(i4, e4))
        && e5 - i5 == 3 && (forall|k: int| i5 <= k < e5 ==> is_word_char(#[trigger] line[k]))
        && 1 <= e6 - i6 <= 2 && all_digits(line.subrange(i6, e6))) {
        None
    } else {
        let p = spec_find_char_before(line, i7 as nat, e7 as nat, ':') as int;
        let year_form = e7 - i7 == 4 && p == e7 && all_digits(line.subrange(i7, e7));
        let clock_form = p < e7 && 1 <= p - i7 <= 2 && 1 <= e7 - p - 1 <= 2
            && all_digits(line.subrange(i7, p)) && all_digits(line.subrange(p + 1, e7));
        if !(year_form || clock_form) {
            None
        } else if i8 >= n {
            None
        } else {
            let name_tok = line.subrange(i8, n);
            let split = if line[0] == 'l' {
                spec_split_arrow(name_tok)
            } else {
                (name_tok, None)
            };
            let nm = spec_sanitize(split.0);
            if nm == seq!['.'] || nm == seq!['.', '.'] {
                None
            } else {
                let perm = line.subrange(1, 10);
                let uid_t = line.subrange(i2, e2);
                let gid_t = line.subrange(i3, e3);
                let size_t = line.subrange(i4, e4);
                let modified = spec_ls_time(
                    spec_month_num(line[i5], line[i5 + 1], line[i5 + 2]),
                    digits_val(line.subrange(i6, e6)),
                    year_form,
                    digits_val(line.subrange(i7, e7)),
                    digits_val(line.subrange(i7, p)),
                    if clock_form { digits_val(line.subrange(p + 1, e7)) } else { 0 },
                );
                Some(FileEntryV {
                    path: spec_join(dir, nm),
                    kind: if split.1 is Some {
                        FileKind::Symlink
                    } else if line[0] == 'd' {
                        FileKind::Directory
                    } else {
                        FileKind::Regular
                    },
                    pex: Some(spec_pex(perm)),
                    uid: if all_digits(uid_t) && digits_val(uid_t) <= u32::MAX {
                        Some(digits_val(uid_t) as u32)
                    } else {
                        None
                    },
                    gid: if all_digits(gid_t) && digits_val(gid_t) <= u32::MAX {
                        Some(digits_val(gid_t) as u32)
                    } else {
                        None
                    },
                    size: if digits_val(size_t) <= u64::MAX {
                        digits_val(size_t) as u64
                    } else {
                        0
                    },
                    modified,
                    symlink: split.1,
                })
            }
        }
    }
}

fn perm_chars_ok(s: &str, n: usize, i: usize, j: usize) -> (r: bool)
    requires
        n == s@.len(),
        i <= j <= n,
    ensures
        r == forall|k: int| i <= k < j ==> is_perm_char(#[trigger] s@[k]),
    decreases j - i,
{
    if i >= j {
        true
    } else {
        let c = s.get_char(i);
        if c == '-' || c == 'r' || c == 'w' || c == 'x' || c == 's' || c == 'S' || c == 't'
            || c == 'T' {
            perm_chars_ok(s, n, i + 1, j)
        } else {
            false
        }
    }
}

fn word_chars_ok(s: &str, n: usize, i: usize, j: usize) -> (r: bool)
    requires
        n == s@.len(),
        i <= j <= n,
    ensures
        r == forall|k: int| i <= k < j ==> is_word_char(#[trigger] s@[k]),
    decreases j - i,
{
    if i >= j {
        true
    } else {
        let c = s.get_char(i);
        if (c >= 'a' && c <= 'z') || (c >= 'A' && c <= 'Z') || (c >= '0' && c <= '9') || c == '_' {
            word_chars_ok(s, n, i + 1, j)
        } else {
            false
        }
    }
}

fn find_arrow(t: &str, n: usize, i: usize) -> (r: Option<usize>)
    requires
        n == t@.len(),
        i <= n,
    ensures
        match r {
            Some(k) => spec_find_arrow(t@, i as nat) == k && i <= k && k + 4 <= n,
            None => spec_find_arrow(t@, i as nat) == -1,
        },
    decreases n - i,
{
    if n - i < 4 {
        None
    } else if t.get_char(i) == ' ' && t.get_char(i + 1) == '-' && t.get_char(i + 2) == '>'
        && t.get_char(i + 3) == ' ' {
        Some(i)
    } else {
        find_arrow(t, n, i + 1)
    }
}

/// Splits a `ls -l` name token into the file name and, when a ` -> `
/// separator is present, the symbolic-link target after it.
pub fn get_name_and_link(token: &str) -> (r: (String, Option<String>))
    ensures
        r.0@ == spec_split_arrow(token@).0,
        match r.1 {
            Some(t) => spec_split_arrow(token@).1 == Some(t@),
            None => spec_split_arrow(token@).1 is None,
        },
{
    let n = token.unicode_len();
    match find_arrow(token, n, 0) {
        None => (String::from_str(token), None),
        Some(f) => {
            let stop = match find_arrow(token, n, f + 4) {
                None => n,
                Some(g) => g,
            };
            (
                String::from_str(token.substring_char(0, f)),
                Some(String::from_str(token.substring_char(f + 4, stop))),
            )
        },
    }
}

/// Parses one long-listing line against the directory that contains the
/// entry. Returns the entry exactly when the line has the required
/// shape; the error case carries no detail, since callers either skip
/// the line or map it to their own failure.
#[verifier::rlimit(100)]
pub fn parse_ls_output(dir: &str, line: &str) -> (r: Result<FileEntry, ()>)
    ensures
        match r {
            Ok(e) => spec_parse_line(dir@, line@) == Some(e@) && e.wf(),
            Err(_) => spec_parse_line(dir@, line@) is None,
        },
{
    let n = line.unicode_len();
    let e0 = token_end(line, n, 0);
    if e0 != 10 {
        return Err(());
    }
    let kind_c = line.get_char(0);
    if !(kind_c == '-' || kind_c == 'l' || kind_c == 'd') {
        return Err(());
    }
    if !perm_chars_ok(line, n, 1, 10) {
        return Err(());
    }
    let i1 = skip_ws(line, n, e0);
    let e1 = token_end(line, n, i1);
    if !(e1 > i1 && all_digits_range(line, n, i1, e1)) {
        return Err(());
    }
    let i2 = skip_ws(line, n, e1);
    let e2 = token_end(line, n, i2);
    if !(e2 > i2) {
        return Err(());
    }
    let i3 = skip_ws(line, n, e2);
    let e3 = token_end(line, n, i3);
    if !(e3 > i3) {
        return Err(());
    }
    let i4 = skip_ws(line, n, e3);
    let e4 = token_end(line, n, i4);
    if !(e4 > i4 && all_digits_range(line, n, i4, e4)) {
        return Err(());
    }
    let i5 = skip_ws(line, n, e4);
    let e5 = token_end(line, n, i5);
    if !(e5 - i5 == 3 && word_chars_ok(line, n, i5, e5)) {
        return Err(());
    }
    let i6 = skip_ws(line, n, e5);
    let e6 = token_end(line, n, i6);
    if !(e6 - i6 >= 1 && e6 - i6 <= 2 && all_digits_range(line, n, i6, e6)) {
        return Err(());
    }
    let i7 = skip_ws(line, n, e6);
    let e7 = token_end(line, n, i7);
    let p = find_char_before(line, n, i7, e7, ':');
    let year_form = e7 - i7 == 4 && p == e7 && all_digits_range(line, n, i7, e7);
    let clock_form = p < e7 && p - i7 >= 1 && p - i7 <= 2 && e7 - p - 1 >= 1 && e7 - p - 1 <= 2
        && all_digits_range(line, n, i7, p) && all_digits_range(line, n, p + 1, e7);
    if !(year_form || clock_form) {
        return Err(());
    }
    let i8 = skip_ws(line, n, e7);
    if i8 >= n {
        return Err(());
    }

    // Name and optional link target; only symlink lines are split.
    let name_tok = line.substring_char(i8, n);
    let (fname, symlink) = if kind_c == 'l' {
        get_name_and_link(name_tok)
    } else {
        (String::from_str(name_tok), None)
    };
    let fn_len = fname.as_str().unicode_len();
    let nm = match file_name_of(fname.as_str(), fn_len) {
        Some(x) => x,
        None => fname,
    };
    let nm_len = nm.as_str().unicode_len();
    let dot1 = nm_len == 1 && nm.as_str().get_char(0) == '.';
    let dot2 = nm_len == 2 && nm.as_str().get_char(0) == '.' && nm.as_str().get_char(1) == '.';
    proof {
        if dot1 {
            assert(nm@ =~= seq!['.']);
        }
        if dot2 {
            assert(nm@ =~= seq!['.', '.']);
        }
        if nm_len != 1 {
            assert(nm@ != seq!['.']);
        }
        if nm_len != 2 {
            assert(nm@ != seq!['.', '.']);
        }
    }
    if dot1 || dot2 {
        return Err(());
    }

    // Permission classes.
    let g_owner: u8 = (if line.get_char(1) != '-' { 4u8 } else { 0u8 })
        + (if line.get_char(2) != '-' { 2u8 } else { 0u8 })
        + (if line.get_char(3) != '-' { 1u8 } else { 0u8 });
    let g_group: u8 = (if line.get_char(4) != '-' { 4u8 } else { 0u8 })
        + (if line.get_char(5) != '-' { 2u8 } else { 0u8 })
        + (if line.get_char(6) != '-' { 1u8 } else { 0u8 });
    let g_other: u8 = (if line.get_char(7) != '-' { 4u8 } else { 0u8 })
        + (if line.get_char(8) != '-' { 2u8 } else { 0u8 })
        + (if line.get_char(9) != '-' { 1u8 } else { 0u8 });
    let pex = Pex { owner: g_owner, group: g_group, other: g_other };
    proof {
        let perm = line@.subrange(1, 10);
        assert(perm[0] == line@[1] && perm[1] == line@[2] && perm[2] == line@[3]
            && perm[3] == line@[4] && perm[4] == line@[5] && perm[5] == line@[6]
            && perm[6] == line@[7] && perm[7] == line@[8] && perm[8] == line@[9]);
        assert(pex == spec_pex(perm));
    }

    // Numeric owner and group, opportunistically.
    let uid: Option<u32> = match parse_uint(line, n, i2, e2, 4294967295u64) {
        Some(v) => Some(v as u32),
        None => None,
    };
    let gid: Option<u32> = match parse_uint(line, n, i3, e3, 4294967295u64) {
        Some(v) => Some(v as u32),
        None => None,
    };
    let size: u64 = match parse_uint(line, n, i4, e4, u64::MAX) {
        Some(v) => v,
        None => 0,
    };

    // Best-effort timestamp.
    let a = line.get_char(i5);
    let b = line.get_char(i5 + 1);
    let c = line.get_char(i5 + 2);
    let month = month_num(a, b, c);
    proof {
        crate::text::lemma_digits_val_small(line@.subrange(i6 as int, e6 as int));
        if year_form {
            crate::text::lemma_digits_val_small(line@.subrange(i7 as int, e7 as int));
        }
        if clock_form {
            crate::text::lemma_digits_val_small(line@.subrange(i7 as int, p as int));
            crate::text::lemma_digits_val_small(line@.subrange(p + 1, e7 as int));
        }
    }
    let day: u64 = match parse_uint(line, n, i6, e6, 9999u64) {
        Some(v) => v,
        None => 0,
    };
    let year: u64 = if year_form {
        match parse_uint(line, n, i7, e7, 9999u64) {
            Some(v) => v,
            None => 0,
        }
    } else {
        0
    };
    let (hour, minute): (u64, u64) = if clock_form {
        let h = match parse_uint(line, n, i7, p, 9999u64) {
            Some(v) => v,
            None => 0,
        };
        let m = match parse_uint(line, n, p + 1, e7, 9999u64) {
            Some(v) => v,
            None => 0,
        };
        (h, m)
    } else {
        (0, 0)
    };
    let modified: Option<LsTime> = match month {
        None => None,
        Some(m) => {
            if !(1 <= day && day <= 31) {
                None
            } else if year_form {
                Some(LsTime::WithYear { month: m, day: day as u8, year: year as u32 })
            } else if hour <= 23 && minute <= 59 {
                Some(LsTime::WithClock {
                    month: m,
                    day: day as u8,
                    hour: hour as u8,
                    minute: minute as u8,
                })
            } else {
                None
            }
        },
    };

    let kind = if symlink.is_some() {
        FileKind::Symlink
    } else if kind_c == 'd' {
        FileKind::Directory
    } else {
        FileKind::Regular
    };
    let path = join_under(dir, nm.as_str());
    let entry = FileEntry { path, kind, pex: Some(pex), uid, gid, size, modified, symlink };
    proof {
        assert(spec_parse_line(dir@, line@) == Some(entry@));
    }
    Ok(entry)
}

fn ci_eq_exec(c: char, l: char) -> (r: bool)
    ensures
        r == ci_eq(c, l),
{
    c == l || (c as u32) + 32 == (l as u32)
}

fn month_num(a: char, b: char, c: char) -> (r: Option<u8>)
    ensures
        r == spec_month_num(a, b, c),
{
    if ci_eq_exec(a, 'j') && ci_eq_exec(b, 'a') && ci_eq_exec(c, 'n') { Some(1u8) }
    else if ci_eq_exec(a, 'f') && ci_eq_exec(b, 'e') && ci_eq_exec(c, 'b') { Some(2u8) }
    else if ci_eq_exec(a, 'm') && ci_eq_exec(b, 'a') && ci_eq_exec(c, 'r') { Some(3u8) }
    else if ci_eq_exec(a, 'a') && ci_eq_exec(b, 'p') && ci_eq_exec(c, 'r') { Some(4u8) }
    else if ci_eq_exec(a, 'm') && ci_eq_exec(b, 'a') && ci_eq_exec(c, 'y') { Some(5u8) }
    else if ci_eq_exec(a, 'j') && ci_eq_exec(b, 'u') && ci_eq_exec(c, 'n') { Some(6u8) }
    else if ci_eq_exec(a, 'j') && ci_eq_exec(b, 'u') && ci_eq_exec(c, 'l') { Some(7u8) }
    else if ci_eq_exec(a, 'a') && ci_eq_exec(b, 'u') && ci_eq_exec(c, 'g') { Some(8u8) }
    else if ci_eq_exec(a, 's') && ci_eq_exec(b, 'e') && ci_eq_exec(c, 'p') { Some(9u8) }
    else if ci_eq_exec(a, 'o') && ci_eq_exec(b, 'c') && ci_eq_exec(c, 't') { Some(10u8) }
    else if ci_eq_exec(a, 'n') && ci_eq_exec(b, 'o') && ci_eq_exec(c, 'v') { Some(11u8) }
    else if ci_eq_exec(a, 'd') && ci_eq_exec(b, 'e') && ci_eq_exec(c, 'c') { Some(12u8) }
    else { None }
}

/// Parsing is a pure function of the directory and the line: any two
/// entries that a line parses to are equal.
pub proof fn lemma_parse_deterministic(dir: Seq<char>, line: Seq<char>, a: FileEntryV, b: FileEntryV)
    requires
        spec_parse_line(dir, line) == Some(a),
        spec_parse_line(dir, line) == Some(b),
    ensures
        a == b,
{
}

/// In the execute slot of a permission group, every non-`-` character
/// counts the same: the special bits `s`, `S`, `t` and `T` are treated
/// exactly like `x`.
pub proof fn lemma_special_bits_read_as_execute(p1: Seq<char>, p2: Seq<char>, base: int)
    requires
        0 <= base,
        base + 3 <= p1.len(),
        p1.len() == p2.len(),
        p1[base] == p2[base],
        p1[base + 1] == p2[base + 1],
        p1[base + 2] != '-' && p2[base + 2] != '-',
    ensures
        spec_group_val(p1, base) == spec_group_val(p2, base),
{
}

} // verus!
