//! Builders for the POSIX utility invocations that the client issues,
//! one per filesystem operation. Paths are always inserted quoted.

use vstd::prelude::*;
use vstd::string::*;
use crate::text::{spec_dec, spec_oct, spec_pad2, spec_pad4, dec_u64, oct_u32, pad2_u8, pad4_u32};

verus! {

/// A timestamp in civil (calendar and clock) form, as `touch -t` wants
/// it. The embedding converts machine time to this form.
#[derive(Clone, Copy, Debug, PartialEq, Eq, Structural)]
pub struct CivilTime {
    pub year: u32,
    pub month: u8,
    pub day: u8,
    pub hour: u8,
    pub minute: u8,
    pub second: u8,
}

impl CivilTime {
    pub open spec fn wf(self) -> bool {
        &&& self.year < 10000
        &&& 1 <= self.month <= 12
        &&& 1 <= self.day <= 31
        &&& self.hour <= 23
        &&& self.minute <= 59
        &&& self.second <= 60
    }
}

/// The `touch -t` rendering `YYYYMMDDhhmm.ss` of a civil timestamp.
pub open spec fn spec_touch_stamp(t: CivilTime) -> Seq<char> {
    spec_pad4(t.year as int) + spec_pad2(t.month as int) + spec_pad2(t.day as int)
        + spec_pad2(t.hour as int) + spec_pad2(t.minute as int) + seq!['.']
        + spec_pad2(t.second as int)
}

pub fn touch_stamp(t: &CivilTime) -> (r: String)
    requires
        t.wf(),
    ensures
        r@ == spec_touch_stamp(*t),
{
    proof {
        reveal_strlit(".");
    }
    let mut s = pad4_u32(t.year);
    s.append(pad2_u8(t.month).as_str());
    s.append(pad2_u8(t.day).as_str());
    s.append(pad2_u8(t.hour).as_str());
    s.append(pad2_u8(t.minute).as_str());
    s.append(".");
    s.append(pad2_u8(t.second).as_str());
    proof {
        assert(s@ =~= spec_touch_stamp(*t));
    }
    s
}

pub open spec fn quoted(p: Seq<char>) -> Seq<char> {
    seq!['"'] + p + seq!['"']
}

/// `pwd`, issued right after connecting to learn the working directory.
pub fn pwd_cmd() -> (r: String)
    ensures
        r@ == "pwd"@,
{
    String::from_str("pwd")
}

pub open spec fn spec_cd_probe_cmd(dir: Seq<char>) -> Seq<char> {
    "cd "@ + quoted(dir) + "; echo $?; pwd"@
}

/// `cd <dir>; echo $?; pwd` — the output starts with `0` exactly when
/// the directory change succeeded, followed by the new directory.
pub fn cd_probe_cmd(dir: &str) -> (r: String)
    ensures
        r@ == spec_cd_probe_cmd(dir@),
{
    let mut s = String::from_str("cd \"");
    s.append(dir);
    s.append("\"; echo $?; pwd");
    proof {
        reveal_strlit("cd \"");
        reveal_strlit("\"; echo $?; pwd");
        reveal_strlit("cd ");
        reveal_strlit("; echo $?; pwd");
        assert(s@ =~= spec_cd_probe_cmd(dir@));
    }
    s
}

pub open spec fn spec_list_cmd(path: Seq<char>) -> Seq<char> {
    "ls -la "@ + seq!['"'] + path + "/\""@
}

/// `ls -la <path>/`.
pub fn list_cmd(path: &str) -> (r: String)
    ensures
        r@ == spec_list_cmd(path@),
{
    let mut s = String::from_str("ls -la \"");
    s.append(path);
    s.append("/\"");
    proof {
        reveal_strlit("ls -la \"");
        reveal_strlit("ls -la ");
        reveal_strlit("/\"");
        assert(s@ =~= spec_list_cmd(path@));
    }
    s
}

pub open spec fn spec_stat_cmd(path: Seq<char>, dir: bool) -> Seq<char> {
    if dir {
        "ls -ld "@ + quoted(path)
    } else {
        "ls -l "@ + quoted(path)
    }
}

/// `ls -ld <path>` for a directory, `ls -l <path>` otherwise.
pub fn stat_cmd(path: &str, dir: bool) -> (r: String)
    ensures
        r@ == spec_stat_cmd(path@, dir),
{
    let mut s = if dir {
        String::from_str("ls -ld \"")
    } else {
        String::from_str("ls -l \"")
    };
    s.append(path);
    s.append("\"");
    proof {
        reveal_strlit("ls -ld \"");
        reveal_strlit("ls -l \"");
        reveal_strlit("ls -ld ");
        reveal_strlit("ls -l ");
        reveal_strlit("\"");
        assert(s@ =~= spec_stat_cmd(path@, dir));
    }
    s
}

pub open spec fn spec_test_dir_cmd(path: Seq<char>) -> Seq<char> {
    "test -d "@ + quoted(path)
}

/// `test -d <path>` — exit status zero exactly for a directory.
pub fn test_dir_cmd(path: &str) -> (r: String)
    ensures
        r@ == spec_test_dir_cmd(path@),
{
    let mut s = String::from_str("test -d \"");
    s.append(path);
    s.append("\"");
    proof {
        reveal_strlit("test -d \"");
        reveal_strlit("test -d ");
        reveal_strlit("\"");
        assert(s@ =~= spec_test_dir_cmd(path@));
    }
    s
}

pub open spec fn spec_test_exists_cmd(path: Seq<char>) -> Seq<char> {
    "test -e "@ + quoted(path)
}

/// `test -e <path>` — exit status zero exactly when the path exists.
pub fn test_exists_cmd(path: &str) -> (r: String)
    ensures
        r@ == spec_test_exists_cmd(path@),
{
    let mut s = String::from_str("test -e \"");
    s.append(path);
    s.append("\"");
    proof {
        reveal_strlit("test -e \"");
        reveal_strlit("test -e ");
        reveal_strlit("\"");
        assert(s@ =~= spec_test_exists_cmd(path@));
    }
    s
}

pub open spec fn spec_mkdir_cmd(mode: int, path: Seq<char>) -> Seq<char> {
    "mkdir -m "@ + spec_oct(mode) + seq![' '] + quoted(path)
}

/// `mkdir -m <octal mode> <path>`.
pub fn mkdir_cmd(mode: u32, path: &str) -> (r: String)
    ensures
        r@ == spec_mkdir_cmd(mode as int, path@),
{
    let mut s = String::from_str("mkdir -m ");
    s.append(oct_u32(mode).as_str());
    s.append(" \"");
    s.append(path);
    s.append("\"");
    proof {
        reveal_strlit("mkdir -m ");
        reveal_strlit(" \"");
        reveal_strlit("\"");
        assert(s@ =~= spec_mkdir_cmd(mode as int, path@));
    }
    s
}

pub open spec fn spec_remove_file_cmd(path: Seq<char>) -> Seq<char> {
    "rm -f "@ + quoted(path)
}

/// `rm -f <path>`.
pub fn remove_file_cmd(path: &str) -> (r: String)
    ensures
        r@ == spec_remove_file_cmd(path@),
{
    let mut s = String::from_str("rm -f \"");
    s.append(path);
    s.append("\"");
    proof {
        reveal_strlit("rm -f \"");
        reveal_strlit("rm -f ");
        reveal_strlit("\"");
        assert(s@ =~= spec_remove_file_cmd(path@));
    }
    s
}

pub open spec fn spec_remove_dir_cmd(path: Seq<char>) -> Seq<char> {
    "rmdir "@ + quoted(path)
}

/// `rmdir <path>` — fails on a non-empty directory.
pub fn remove_dir_cmd(path: &str) -> (r: String)
    ensures
        r@ == spec_remove_dir_cmd(path@),
{
    let mut s = String::from_str("rmdir \"");
    s.append(path);
    s.append("\"");
    proof {
        reveal_strlit("rmdir \"");
        reveal_strlit("rmdir ");
        reveal_strlit("\"");
        assert(s@ =~= spec_remove_dir_cmd(path@));
    }
    s
}

pub open spec fn spec_remove_dir_all_cmd(path: Seq<char>) -> Seq<char> {
    "rm -rf "@ + quoted(path)
}

/// `rm -rf <path>`.
pub fn remove_dir_all_cmd(path: &str) -> (r: String)
    ensures
        r@ == spec_remove_dir_all_cmd(path@),
{
    let mut s = String::from_str("rm -rf \"");
    s.append(path);
    s.append("\"");
    proof {
        reveal_strlit("rm -rf \"");
        reveal_strlit("rm -rf ");
        reveal_strlit("\"");
        assert(s@ =~= spec_remove_dir_all_cmd(path@));
    }
    s
}

pub open spec fn spec_symlink_cmd(path: Seq<char>, target: Seq<char>) -> Seq<char> {
    "ln -s "@ + quoted(target) + seq![' '] + quoted(path)
}

/// `ln -s <target> <path>`.
pub fn symlink_cmd(path: &str, target: &str) -> (r: String)
    ensures
        r@ == spec_symlink_cmd(path@, target@),
{
    let mut s = String::from_str("ln -s \"");
    s.append(target);
    s.append("\" \"");
    s.append(path);
    s.append("\"");
    proof {
        reveal_strlit("ln -s \"");
        reveal_strlit("ln -s ");
        reveal_strlit("\" \"");
        reveal_strlit("\"");
        assert(s@ =~= spec_symlink_cmd(path@, target@));
    }
    s
}

pub open spec fn spec_copy_cmd(src: Seq<char>, dest: Seq<char>) -> Seq<char> {
    "cp -rf "@ + quoted(src) + seq![' '] + quoted(dest)
}

/// `cp -rf <src> <dest>`.
pub fn copy_cmd(src: &str, dest: &str) -> (r: String)
    ensures
        r@ == spec_copy_cmd(src@, dest@),
{
    let mut s = String::from_str("cp -rf \"");
    s.append(src);
    s.append("\" \"");
    s.append(dest);
    s.append("\"");
    proof {
        reveal_strlit("cp -rf \"");
        reveal_strlit("cp -rf ");
        reveal_strlit("\" \"");
        reveal_strlit("\"");
        assert(s@ =~= spec_copy_cmd(src@, dest@));
    }
    s
}

pub open spec fn spec_move_cmd(src: Seq<char>, dest: Seq<char>) -> Seq<char> {
    "mv -f "@ + quoted(src) + seq![' '] + quoted(dest)
}

/// `mv -f <src> <dest>`.
pub fn move_cmd(src: &str, dest: &str) -> (r: String)
    ensures
        r@ == spec_move_cmd(src@, dest@),
{
    let mut s = String::from_str("mv -f \"");
    s.append(src);
    s.append("\" \"");
    s.append(dest);
    s.append("\"");
    proof {
        reveal_strlit("mv -f \"");
        reveal_strlit("mv -f ");
        reveal_strlit("\" \"");
        reveal_strlit("\"");
        assert(s@ =~= spec_move_cmd(src@, dest@));
    }
    s
}

pub open spec fn spec_chmod_cmd(mode: int, path: Seq<char>) -> Seq<char> {
    "chmod "@ + spec_oct(mode) + seq![' '] + quoted(path)
}

/// `chmod <octal mode> <path>`.
pub fn chmod_cmd(mode: u32, path: &str) -> (r: String)
    ensures
        r@ == spec_chmod_cmd(mode as int, path@),
{
    let mut s = String::from_str("chmod ");
    s.append(oct_u32(mode).as_str());
    s.append(" \"");
    s.append(path);
    s.append("\"");
    proof {
        reveal_strlit("chmod ");
        reveal_strlit(" \"");
        reveal_strlit("\"");
        assert(s@ =~= spec_chmod_cmd(mode as int, path@));
    }
    s
}

pub open spec fn spec_chown_cmd(uid: int, gid: Option<u32>, path: Seq<char>) -> Seq<char> {
    let group_part = match gid {
        Some(g) => seq![':'] + spec_dec(g as int),
        None => Seq::<char>::empty(),
    };
    "chown "@ + spec_dec(uid) + group_part + seq![' '] + quoted(path)
}

/// `chown <uid>[:<gid>] <path>`.
pub fn chown_cmd(uid: u32, gid: Option<u32>, path: &str) -> (r: String)
    ensures
        r@ == spec_chown_cmd(uid as int, gid, path@),
{
    let mut s = String::from_str("chown ");
    s.append(dec_u64(uid as u64).as_str());
    match gid {
        Some(g) => {
            s.append(":");
            s.append(dec_u64(g as u64).as_str());
        },
        None => {},
    }
    s.append(" \"");
    s.append(path);
    s.append("\"");
    proof {
        reveal_strlit("chown ");
        reveal_strlit(":");
        reveal_strlit(" \"");
        reveal_strlit("\"");
        assert(s@ =~= spec_chown_cmd(uid as int, gid, path@));
    }
    s
}

pub open spec fn spec_touch_cmd(access: bool, t: CivilTime, path: Seq<char>) -> Seq<char> {
    (if access { "touch -a -t "@ } else { "touch -m -t "@ }) + spec_touch_stamp(t) + seq![' ']
        + quoted(path)
}

/// `touch -a -t <stamp> <path>` or `touch -m -t <stamp> <path>`.
pub fn touch_cmd(access: bool, t: &CivilTime, path: &str) -> (r: String)
    requires
        t.wf(),
    ensures
        r@ == spec_touch_cmd(access, *t, path@),
{
    let mut s = if access {
        String::from_str("touch -a -t ")
    } else {
        String::from_str("touch -m -t ")
    };
    s.append(touch_stamp(t).as_str());
    s.append(" \"");
    s.append(path);
    s.append("\"");
    proof {
        reveal_strlit("touch -a -t ");
        reveal_strlit("touch -m -t ");
        reveal_strlit(" \"");
        reveal_strlit("\"");
        assert(s@ =~= spec_touch_cmd(access, *t, path@));
    }
    s
}

/// The argv that runs a wrapped shell command remotely.
pub fn shell_argv(shell_cmd: &str) -> (r: Vec<String>)
    ensures
        r.deep_view() =~= seq!["/bin/sh"@, "-c"@, shell_cmd@],
{
    let mut v: Vec<String> = Vec::new();
    v.push(String::from_str("/bin/sh"));
    v.push(String::from_str("-c"));
    v.push(String::from_str(shell_cmd));
    proof {
        assert(v.deep_view() =~= seq!["/bin/sh"@, "-c"@, shell_cmd@]);
    }
    v
}

/// The argv that unpacks an uploaded archive into `dir`:
/// `tar xf - -C <dir>`.
pub fn tar_unpack_argv(dir: &str) -> (r: Vec<String>)
    ensures
        r.deep_view() =~= seq!["tar"@, "xf"@, "-"@, "-C"@, dir@],
{
    let mut v: Vec<String> = Vec::new();
    v.push(String::from_str("tar"));
    v.push(String::from_str("xf"));
    v.push(String::from_str("-"));
    v.push(String::from_str("-C"));
    v.push(String::from_str(dir));
    proof {
        assert(v.deep_view() =~= seq!["tar"@, "xf"@, "-"@, "-C"@, dir@]);
    }
    v
}

/// The argv that archives one file for download:
/// `tar cf - -C <parent> <name>`.
pub fn tar_pack_argv(parent: &str, name: &str) -> (r: Vec<String>)
    ensures
        r.deep_view() =~= seq!["tar"@, "cf"@, "-"@, "-C"@, parent@, name@],
{
    let mut v: Vec<String> = Vec::new();
    v.push(String::from_str("tar"));
    v.push(String::from_str("cf"));
    v.push(String::from_str("-"));
    v.push(String::from_str("-C"));
    v.push(String::from_str(parent));
    v.push(String::from_str(name));
    proof {
        assert(v.deep_view() =~= seq!["tar"@, "cf"@, "-"@, "-C"@, parent@, name@]);
    }
    v
}

} // verus!
