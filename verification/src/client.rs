//! The single-container filesystem client: the session state (bound
//! pod, container and believed working directory) and the decision
//! logic of every filesystem operation.
//!
//! The session never talks to the network itself. The embedding runs
//! the commands built in `commands` through the shell protocol of
//! `shell` and hands the outcomes back to the functions here, which
//! say — exactly — what each outcome means and how the session state
//! changes. `alive` stands for the result of the liveness poll of the
//! bound pod; an operation on a session that is not alive fails with
//! `NotConnected` before anything else.

use vstd::prelude::*;
use vstd::string::*;
use crate::errors::ErrorKind;
use crate::listing::{FileEntry, FileEntryV, spec_parse_line, parse_ls_output};
use crate::paths::{is_abs, spec_absolutize, spec_parent, spec_file_name, absolutize, parent_of,
    file_name_of};
use crate::shell::CommandResult;
use crate::text::{spec_trim, spec_find_char_before, trim};
use crate::commands::CivilTime;

verus! {

/// The binding of a single-container client: which pod and container
/// it targets, the working directory the remote shell last reported,
/// and whether an API connection is bound.
#[derive(Clone, Debug)]
pub struct ContainerSession {
    pub pod_name: String,
    pub container: String,
    pub wrkdir: String,
    pub connected: bool,
}

pub struct ContainerSessionV {
    pub pod_name: Seq<char>,
    pub container: Seq<char>,
    pub wrkdir: Seq<char>,
    pub connected: bool,
}

impl View for ContainerSession {
    type V = ContainerSessionV;

    open spec fn view(&self) -> ContainerSessionV {
        ContainerSessionV {
            pod_name: self.pod_name@,
            container: self.container@,
            wrkdir: self.wrkdir@,
            connected: self.connected,
        }
    }
}

impl ContainerSession {
    /// The working directory is always an absolute path, as the remote
    /// shell reports it.
    pub open spec fn wf(&self) -> bool {
        is_abs(self.wrkdir@)
    }

    /// A fresh, unconnected session targeting one pod and container,
    /// rooted at `/`.
    pub fn new(pod_name: &str, container: &str) -> (r: ContainerSession)
        ensures
            r@.pod_name == pod_name@,
            r@.container == container@,
            r@.wrkdir == "/"@,
            !r@.connected,
            r.wf(),
    {
        proof {
            reveal_strlit("/");
        }
        ContainerSession {
            pod_name: String::from_str(pod_name),
            container: String::from_str(container),
            wrkdir: String::from_str("/"),
            connected: false,
        }
    }

    /// Resolves a caller path against the remembered working
    /// directory.
    pub fn resolve(&self, path: &str) -> (r: String)
        requires
            self.wf(),
        ensures
            r@ == spec_absolutize(self.wrkdir@, path@),
            is_abs(r@),
    {
        absolutize(self.wrkdir.as_str(), path)
    }

    /// Marks the API connection bound; the counterpart of storing the
    /// pod handle.
    pub fn set_connected(&mut self)
        ensures
            final(self)@ == (ContainerSessionV { connected: true, ..old(self)@ }),
    {
        self.connected = true;
    }

    /// Drops the binding. Fails when no connection was bound; the
    /// binding is kept as it was in that case.
    pub fn disconnect(&mut self) -> (r: Result<(), ErrorKind>)
        ensures
            old(self)@.connected ==> r is Ok && final(self)@ == (ContainerSessionV {
                connected: false,
                ..old(self)@
            }),
            (!old(self)@.connected ==> r == Err::<(), ErrorKind>(ErrorKind::NotConnected)
                && final(self)@ == old(self)@),
    {
        if self.connected {
            self.connected = false;
            Ok(())
        } else {
            Err(ErrorKind::NotConnected)
        }
    }

    /// The virtual working directory, available only on a live
    /// session.
    pub fn pwd(&self, alive: bool) -> (r: Result<String, ErrorKind>)
        ensures
            match r {
                Ok(w) => alive && w@ == self.wrkdir@,
                Err(e) => !alive && e == ErrorKind::NotConnected,
            },
    {
        if alive {
            Ok(self.wrkdir.clone())
        } else {
            Err(ErrorKind::NotConnected)
        }
    }

    /// Digests the `pwd` answer received right after connecting: the
    /// reported directory must be absolute, and becomes the working
    /// directory with surrounding whitespace stripped.
    pub fn apply_connect_pwd(&mut self, output: &str) -> (r: Result<(), ErrorKind>)
        ensures
            ({
                let good = output@.len() > 0 && output@[0] == '/';
                match r {
                    Ok(_) => good && final(self)@ == ContainerSessionV {
                        wrkdir: spec_trim(output@),
                        ..old(self)@
                    },
                    Err(e) => !good && e == ErrorKind::ConnectionError
                        && final(self)@ == old(self)@,
                }
            }),
            r is Ok ==> final(self).wf(),
    {
        let n = output.unicode_len();
        if n > 0 && output.get_char(0) == '/' {
            let w = trim(output, n);
            proof {
                assert(!crate::text::is_trim_ws(output@[0]));
                assert(crate::text::spec_ltrim(output@, 0) == 0);
                crate::text::lemma_rtrim_past_content(output@, n as nat, 0);
                crate::text::lemma_rtrim_le(output@, n as nat);
                assert(spec_trim(output@) == output@.subrange(
                    0,
                    crate::text::spec_rtrim(output@, n as nat) as int,
                ));
                assert(spec_trim(output@)[0] == '/');
            }
            self.wrkdir = String::from_str(w);
            Ok(())
        } else {
            Err(ErrorKind::ConnectionError)
        }
    }

    /// Digests the outcome of the `cd <dir>; echo $?; pwd` probe. On
    /// `0<newdir>` the working directory becomes `<newdir>` and is
    /// returned; any other output means the directory does not exist,
    /// and a failed exchange is a protocol error. The reported
    /// directory must be absolute — a probe that echoes success but a
    /// non-absolute directory is a protocol error, keeping the
    /// working-directory invariant. The binding is unchanged on every
    /// failure.
    pub fn apply_change_dir(&mut self, outcome: Result<String, ErrorKind>) -> (r: Result<
        String,
        ErrorKind,
    >)
        ensures
            ({
                let t = spec_trim(outcome->Ok_0@);
                let w = spec_trim(t.subrange(1, t.len() as int));
                match r {
                    Ok(nw) => outcome is Ok && t.len() > 0 && t[0] == '0' && is_abs(w)
                        && nw@ == w && final(self)@ == ContainerSessionV {
                        wrkdir: w,
                        ..old(self)@
                    },
                    Err(e) => final(self)@ == old(self)@ && match outcome {
                        Err(_) => e == ErrorKind::ProtocolError,
                        Ok(_) => if t.len() > 0 && t[0] == '0' {
                            !is_abs(w) && e == ErrorKind::ProtocolError
                        } else {
                            e == ErrorKind::NoSuchFileOrDirectory
                        },
                    },
                }
            }),
            r is Ok ==> final(self).wf(),
    {
        match outcome {
            Err(_) => Err(ErrorKind::ProtocolError),
            Ok(out) => {
                let n = out.as_str().unicode_len();
                let t = trim(out.as_str(), n);
                let tn = t.unicode_len();
                if tn > 0 && t.get_char(0) == '0' {
                    let rest = t.substring_char(1, tn);
                    let w = trim(rest, tn - 1);
                    let wn = w.unicode_len();
                    if wn > 0 && w.get_char(0) == '/' {
                        self.wrkdir = String::from_str(w);
                        Ok(self.wrkdir.clone())
                    } else {
                        Err(ErrorKind::ProtocolError)
                    }
                } else {
                    Err(ErrorKind::NoSuchFileOrDirectory)
                }
            },
        }
    }
}

/// Every operation fails fast with `NotConnected` on a session that is
/// not live.
pub fn require_connected(alive: bool) -> (r: Result<(), ErrorKind>)
    ensures
        alive ==> r is Ok,
        !alive ==> r == Err::<(), ErrorKind>(ErrorKind::NotConnected),
{
    if alive {
        Ok(())
    } else {
        Err(ErrorKind::NotConnected)
    }
}

/// What a `test -e` / `test -d` probe means: exit status zero is
/// `true`, any other status `false`, and a failed exchange a stat
/// failure. Probes never report a missing path as an error.
pub fn test_outcome(alive: bool, outcome: Result<CommandResult, ErrorKind>) -> (r: Result<
    bool,
    ErrorKind,
>)
    ensures
        match r {
            Ok(b) => alive && outcome is Ok && b == (outcome->Ok_0@.exit_code == 0),
            Err(e) => if !alive {
                e == ErrorKind::NotConnected
            } else {
                outcome is Err && e == ErrorKind::StatFailed
            },
        },
{
    if !alive {
        return Err(ErrorKind::NotConnected);
    }
    match outcome {
        Ok(cr) => Ok(cr.exit_code == 0),
        Err(_) => Err(ErrorKind::StatFailed),
    }
}

/// The entries listed by `ls -la` output `out` for directory `dir`:
/// each line parsed on its own, lines that are no entries skipped.
pub open spec fn spec_list_entries(dir: Seq<char>, out: Seq<char>, i: nat) -> Seq<FileEntryV>
    decreases out.len() - i,
    via spec_list_entries_decreases
{
    if i >= out.len() {
        Seq::empty()
    } else {
        let e = spec_find_char_before(out, i, out.len() as nat, '\n');
        let raw = out.subrange(i as int, e as int);
        let piece = if raw.len() > 0 && raw.last() == '\r' {
            raw.drop_last()
        } else {
            raw
        };
        let rest = if e >= out.len() {
            Seq::<FileEntryV>::empty()
        } else {
            spec_list_entries(dir, out, e + 1)
        };
        match spec_parse_line(dir, piece) {
            Some(v) => seq![v] + rest,
            None => rest,
        }
    }
}

proof fn lemma_find_char_bounds(s: Seq<char>, i: nat, j: nat, c: char)
    requires
        i <= j <= s.len(),
    ensures
        i <= spec_find_char_before(s, i, j, c) <= j,
    decreases j - i,
{
    if i < j && s[i as int] != c {
        lemma_find_char_bounds(s, i + 1, j, c);
    }
}

#[via_fn]
proof fn spec_list_entries_decreases(dir: Seq<char>, out: Seq<char>, i: nat) {
    if i < out.len() {
        lemma_find_char_bounds(out, i, out.len() as nat, '\n');
    }
}

#[verifier::rlimit(100)]
#[verifier::spinoff_prover]
fn parse_lines_from(dir: &str, out: &str, n: usize, i: usize) -> (r: Vec<FileEntry>)
    requires
        n == out@.len(),
        i <= n,
    ensures
        r.deep_view() == spec_list_entries(dir@, out@, i as nat),
    decreases n - i,
{
    if i >= n {
        let r: Vec<FileEntry> = Vec::new();
        proof {
            assert(r.deep_view() =~= spec_list_entries(dir@, out@, i as nat));
        }
        return r;
    }
    let e = crate::text::find_char_before(out, n, i, n, '\n');
    let end: usize = if e > i && out.get_char(e - 1) == '\r' {
        e - 1
    } else {
        e
    };
    proof {
        let raw = out@.subrange(i as int, e as int);
        if e > i && out@[e - 1] == '\r' {
            assert(raw.last() == out@[e - 1]);
            assert(raw.drop_last() =~= out@.subrange(i as int, e - 1));
        } else if e > i {
            assert(raw.last() == out@[e - 1]);
        }
        assert(out@.subrange(i as int, end as int) =~= (if raw.len() > 0 && raw.last() == '\r' {
            raw.drop_last()
        } else {
            raw
        }));
    }
    let line = out.substring_char(i, end);
    let parsed = parse_ls_output(dir, line);
    let mut rest: Vec<FileEntry> = if e >= n {
        Vec::new()
    } else {
        parse_lines_from(dir, out, n, e + 1)
    };
    proof {
        if e >= n {
            assert(rest.deep_view() =~= Seq::<FileEntryV>::empty());
        }
    }
    match parsed {
        Ok(entry) => {
            rest.insert(0, entry);
            proof {
                assert(rest.deep_view() =~= spec_list_entries(dir@, out@, i as nat));
            }
            rest
        },
        Err(_) => {
            proof {
                assert(rest.deep_view() =~= spec_list_entries(dir@, out@, i as nat));
            }
            rest
        },
    }
}

/// What listing a directory means: on a live session and an existing
/// directory, every parsable line of the `ls -la` output becomes one
/// entry and the rest are skipped; a missing directory is
/// `NoSuchFileOrDirectory` and a failed exchange a protocol error.
pub fn list_dir_result(
    alive: bool,
    dir_exists: bool,
    dir_abs: &str,
    outcome: Result<String, ErrorKind>,
) -> (r: Result<Vec<FileEntry>, ErrorKind>)
    ensures
        match r {
            Ok(v) => alive && dir_exists && outcome is Ok
                && v.deep_view() == spec_list_entries(dir_abs@, outcome->Ok_0@, 0),
            Err(e) => if !alive {
                e == ErrorKind::NotConnected
            } else if !dir_exists {
                e == ErrorKind::NoSuchFileOrDirectory
            } else {
                outcome is Err && e == ErrorKind::ProtocolError
            },
        },
{
    if !alive {
        return Err(ErrorKind::NotConnected);
    }
    if !dir_exists {
        return Err(ErrorKind::NoSuchFileOrDirectory);
    }
    match outcome {
        Ok(out) => {
            let n = out.as_str().unicode_len();
            Ok(parse_lines_from(dir_abs, out.as_str(), n, 0))
        },
        Err(_) => Err(ErrorKind::ProtocolError),
    }
}

/// What a stat exchange means: the one output line, trimmed, parsed
/// against the parent directory of the queried path. A path without a
/// parent cannot be stated; an unparsable line means the entry does
/// not exist.
pub fn stat_result(alive: bool, path_abs: &str, outcome: Result<String, ErrorKind>) -> (r: Result<
    FileEntry,
    ErrorKind,
>)
    requires
        is_abs(path_abs@),
    ensures
        match r {
            Ok(entry) => alive && outcome is Ok && spec_parent(path_abs@) is Some
                && spec_parse_line(
                    spec_parent(path_abs@)->Some_0,
                    spec_trim(outcome->Ok_0@),
                ) == Some(entry@) && entry.wf(),
            Err(e) => if !alive {
                e == ErrorKind::NotConnected
            } else if outcome is Err {
                e == ErrorKind::ProtocolError
            } else if spec_parent(path_abs@) is None {
                e == ErrorKind::StatFailed
            } else {
                spec_parse_line(
                    spec_parent(path_abs@)->Some_0,
                    spec_trim(outcome->Ok_0@),
                ) is None && e == ErrorKind::NoSuchFileOrDirectory
            },
        },
{
    if !alive {
        return Err(ErrorKind::NotConnected);
    }
    let line = match outcome {
        Ok(line) => line,
        Err(_) => {
            return Err(ErrorKind::ProtocolError);
        },
    };
    let n = path_abs.unicode_len();
    let parent = match parent_of(path_abs, n) {
        Some(p) => p,
        None => {
            return Err(ErrorKind::StatFailed);
        },
    };
    let ln = line.as_str().unicode_len();
    let trimmed = trim(line.as_str(), ln);
    match parse_ls_output(parent.as_str(), trimmed) {
        Ok(entry) => Ok(entry),
        Err(_) => Err(ErrorKind::NoSuchFileOrDirectory),
    }
}

/// The attribute changes one `setstat` call asks for. Times are civil
/// timestamps; the embedding converts machine time before calling in.
#[derive(Clone, Copy, Debug, PartialEq, Eq, Structural)]
pub struct SetStat {
    pub mode: Option<u32>,
    pub uid: Option<u32>,
    pub gid: Option<u32>,
    pub accessed: Option<CivilTime>,
    pub modified: Option<CivilTime>,
}

impl SetStat {
    pub open spec fn wf(self) -> bool {
        &&& (self.accessed is Some ==> self.accessed->0.wf())
        &&& (self.modified is Some ==> self.modified->0.wf())
    }
}

/// The command sequence a `setstat` call issues: `chmod` for a mode,
/// `chown` for an owner (carrying the group along), and one `touch`
/// per populated time, in that order; absent fields issue nothing.
pub open spec fn spec_setstat_commands(path: Seq<char>, m: SetStat) -> Seq<Seq<char>> {
    (match m.mode {
        Some(mode) => seq![crate::commands::spec_chmod_cmd(mode as int, path)],
        None => Seq::<Seq<char>>::empty(),
    }) + (match m.uid {
        Some(uid) => seq![crate::commands::spec_chown_cmd(uid as int, m.gid, path)],
        None => Seq::<Seq<char>>::empty(),
    }) + (match m.accessed {
        Some(t) => seq![crate::commands::spec_touch_cmd(true, t, path)],
        None => Seq::<Seq<char>>::empty(),
    }) + (match m.modified {
        Some(t) => seq![crate::commands::spec_touch_cmd(false, t, path)],
        None => Seq::<Seq<char>>::empty(),
    })
}

pub fn setstat_commands(path_abs: &str, m: &SetStat) -> (r: Vec<String>)
    requires
        m.wf(),
    ensures
        r.deep_view() == spec_setstat_commands(path_abs@, *m),
{
    let mut v: Vec<String> = Vec::new();
    if let Some(mode) = m.mode {
        v.push(crate::commands::chmod_cmd(mode, path_abs));
    }
    if let Some(uid) = m.uid {
        v.push(crate::commands::chown_cmd(uid, m.gid, path_abs));
    }
    if let Some(t) = m.accessed {
        v.push(crate::commands::touch_cmd(true, &t, path_abs));
    }
    if let Some(t) = m.modified {
        v.push(crate::commands::touch_cmd(false, &t, path_abs));
    }
    proof {
        assert(v.deep_view() =~= spec_setstat_commands(path_abs@, *m));
    }
    v
}

/// `setstat` runs only on a live session and an existing path.
pub fn setstat_precheck(alive: bool, exists: bool) -> (r: Result<(), ErrorKind>)
    ensures
        match r {
            Ok(_) => alive && exists,
            Err(e) => if !alive {
                e == ErrorKind::NotConnected
            } else {
                !exists && e == ErrorKind::NoSuchFileOrDirectory
            },
        },
{
    if !alive {
        Err(ErrorKind::NotConnected)
    } else if !exists {
        Err(ErrorKind::NoSuchFileOrDirectory)
    } else {
        Ok(())
    }
}

/// Each `setstat` sub-command must exit zero; a non-zero status is a
/// stat failure and a failed exchange a protocol error.
pub fn setstat_step(outcome: Result<CommandResult, ErrorKind>) -> (r: Result<(), ErrorKind>)
    ensures
        match r {
            Ok(_) => outcome is Ok && outcome->Ok_0@.exit_code == 0,
            Err(e) => match outcome {
                Ok(cr) => cr@.exit_code != 0 && e == ErrorKind::StatFailed,
                Err(_) => e == ErrorKind::ProtocolError,
            },
        },
{
    match outcome {
        Ok(cr) => {
            if cr.exit_code == 0 {
                Ok(())
            } else {
                Err(ErrorKind::StatFailed)
            }
        },
        Err(_) => Err(ErrorKind::ProtocolError),
    }
}

/// What removing a file means: the path must exist beforehand, and
/// `rm -f` must exit zero.
pub fn remove_file_result(
    alive: bool,
    exists: bool,
    outcome: Result<CommandResult, ErrorKind>,
) -> (r: Result<(), ErrorKind>)
    ensures
        match r {
            Ok(_) => alive && exists && outcome is Ok && outcome->Ok_0@.exit_code == 0,
            Err(e) => if !alive {
                e == ErrorKind::NotConnected
            } else if !exists {
                e == ErrorKind::NoSuchFileOrDirectory
            } else {
                match outcome {
                    Ok(cr) => cr@.exit_code != 0 && e == ErrorKind::CouldNotRemoveFile,
                    Err(_) => e == ErrorKind::ProtocolError,
                }
            },
        },
{
    if !alive {
        return Err(ErrorKind::NotConnected);
    }
    if !exists {
        return Err(ErrorKind::NoSuchFileOrDirectory);
    }
    match outcome {
        Ok(cr) => {
            if cr.exit_code == 0 {
                Ok(())
            } else {
                Err(ErrorKind::CouldNotRemoveFile)
            }
        },
        Err(_) => Err(ErrorKind::ProtocolError),
    }
}

/// What removing an empty directory means: a non-zero `rmdir` exit
/// reports the directory as not empty.
pub fn remove_dir_result(
    alive: bool,
    exists: bool,
    outcome: Result<CommandResult, ErrorKind>,
) -> (r: Result<(), ErrorKind>)
    ensures
        match r {
            Ok(_) => alive && exists && outcome is Ok && outcome->Ok_0@.exit_code == 0,
            Err(e) => if !alive {
                e == ErrorKind::NotConnected
            } else if !exists {
                e == ErrorKind::NoSuchFileOrDirectory
            } else {
                match outcome {
                    Ok(cr) => cr@.exit_code != 0 && e == ErrorKind::DirectoryNotEmpty,
                    Err(_) => e == ErrorKind::ProtocolError,
                }
            },
        },
{
    if !alive {
        return Err(ErrorKind::NotConnected);
    }
    if !exists {
        return Err(ErrorKind::NoSuchFileOrDirectory);
    }
    match outcome {
        Ok(cr) => {
            if cr.exit_code == 0 {
                Ok(())
            } else {
                Err(ErrorKind::DirectoryNotEmpty)
            }
        },
        Err(_) => Err(ErrorKind::ProtocolError),
    }
}

/// What removing a tree with `rm -rf` means.
pub fn remove_dir_all_result(
    alive: bool,
    exists: bool,
    outcome: Result<CommandResult, ErrorKind>,
) -> (r: Result<(), ErrorKind>)
    ensures
        match r {
            Ok(_) => alive && exists && outcome is Ok && outcome->Ok_0@.exit_code == 0,
            Err(e) => if !alive {
                e == ErrorKind::NotConnected
            } else if !exists {
                e == ErrorKind::NoSuchFileOrDirectory
            } else {
                match outcome {
                    Ok(cr) => cr@.exit_code != 0 && e == ErrorKind::CouldNotRemoveFile,
                    Err(_) => e == ErrorKind::ProtocolError,
                }
            },
        },
{
    if !alive {
        return Err(ErrorKind::NotConnected);
    }
    if !exists {
        return Err(ErrorKind::NoSuchFileOrDirectory);
    }
    match outcome {
        Ok(cr) => {
            if cr.exit_code == 0 {
                Ok(())
            } else {
                Err(ErrorKind::CouldNotRemoveFile)
            }
        },
        Err(_) => Err(ErrorKind::ProtocolError),
    }
}

/// What creating a directory means: the path must not exist yet, and
/// `mkdir -m` must exit zero.
pub fn create_dir_result(
    alive: bool,
    already_exists: bool,
    outcome: Result<CommandResult, ErrorKind>,
) -> (r: Result<(), ErrorKind>)
    ensures
        match r {
            Ok(_) => alive && !already_exists && outcome is Ok && outcome->Ok_0@.exit_code == 0,
            Err(e) => if !alive {
                e == ErrorKind::NotConnected
            } else if already_exists {
                e == ErrorKind::DirectoryAlreadyExists
            } else {
                match outcome {
                    Ok(cr) => cr@.exit_code != 0 && e == ErrorKind::FileCreateDenied,
                    Err(_) => e == ErrorKind::ProtocolError,
                }
            },
        },
{
    if !alive {
        return Err(ErrorKind::NotConnected);
    }
    if already_exists {
        return Err(ErrorKind::DirectoryAlreadyExists);
    }
    match outcome {
        Ok(cr) => {
            if cr.exit_code == 0 {
                Ok(())
            } else {
                Err(ErrorKind::FileCreateDenied)
            }
        },
        Err(_) => Err(ErrorKind::ProtocolError),
    }
}

/// What creating a symlink means: the target must exist, the link path
/// must not, and `ln -s` must exit zero.
pub fn symlink_result(
    alive: bool,
    target_exists: bool,
    path_exists: bool,
    outcome: Result<CommandResult, ErrorKind>,
) -> (r: Result<(), ErrorKind>)
    ensures
        match r {
            Ok(_) => alive && target_exists && !path_exists && outcome is Ok
                && outcome->Ok_0@.exit_code == 0,
            Err(e) => if !alive {
                e == ErrorKind::NotConnected
            } else if !target_exists {
                e == ErrorKind::NoSuchFileOrDirectory
            } else if path_exists {
                e == ErrorKind::FileCreateDenied
            } else {
                match outcome {
                    Ok(cr) => cr@.exit_code != 0 && e == ErrorKind::FileCreateDenied,
                    Err(_) => e == ErrorKind::ProtocolError,
                }
            },
        },
{
    if !alive {
        return Err(ErrorKind::NotConnected);
    }
    if !target_exists {
        return Err(ErrorKind::NoSuchFileOrDirectory);
    }
    if path_exists {
        return Err(ErrorKind::FileCreateDenied);
    }
    match outcome {
        Ok(cr) => {
            if cr.exit_code == 0 {
                Ok(())
            } else {
                Err(ErrorKind::FileCreateDenied)
            }
        },
        Err(_) => Err(ErrorKind::ProtocolError),
    }
}

/// What copying or moving means: the source must exist, and the
/// utility must exit zero; a non-zero exit is a creation failure at
/// the destination.
pub fn copy_or_move_result(
    alive: bool,
    src_exists: bool,
    outcome: Result<CommandResult, ErrorKind>,
) -> (r: Result<(), ErrorKind>)
    ensures
        match r {
            Ok(_) => alive && src_exists && outcome is Ok && outcome->Ok_0@.exit_code == 0,
            Err(e) => if !alive {
                e == ErrorKind::NotConnected
            } else if !src_exists {
                e == ErrorKind::NoSuchFileOrDirectory
            } else {
                match outcome {
                    Ok(cr) => cr@.exit_code != 0 && e == ErrorKind::FileCreateDenied,
                    Err(_) => e == ErrorKind::ProtocolError,
                }
            },
        },
{
    if !alive {
        return Err(ErrorKind::NotConnected);
    }
    if !src_exists {
        return Err(ErrorKind::NoSuchFileOrDirectory);
    }
    match outcome {
        Ok(cr) => {
            if cr.exit_code == 0 {
                Ok(())
            } else {
                Err(ErrorKind::FileCreateDenied)
            }
        },
        Err(_) => Err(ErrorKind::ProtocolError),
    }
}

/// `exec` passes the recovered exit status and stdout through
/// untouched; only a dead session or a channel failure is an error.
pub fn exec_result(alive: bool, outcome: Result<CommandResult, ErrorKind>) -> (r: Result<
    (u32, String),
    ErrorKind,
>)
    ensures
        match r {
            Ok(p) => alive && outcome is Ok && p.0 == outcome->Ok_0@.exit_code
                && p.1@ == outcome->Ok_0@.stdout,
            Err(e) => if !alive {
                e == ErrorKind::NotConnected
            } else {
                outcome is Err && e == outcome->Err_0
            },
        },
{
    if !alive {
        return Err(ErrorKind::NotConnected);
    }
    match outcome {
        Ok(cr) => Ok((cr.exit_code, cr.stdout)),
        Err(e) => Err(e),
    }
}

/// Streaming file handles are unsupported by design: the transport has
/// no partial I/O.
pub fn stream_unsupported() -> (r: Result<(), ErrorKind>)
    ensures
        r == Err::<(), ErrorKind>(ErrorKind::UnsupportedFeature),
{
    Err(ErrorKind::UnsupportedFeature)
}

/// The file name under which an upload is archived: the last component
/// of the destination path; a destination without one cannot be
/// created.
pub fn create_file_name(alive: bool, path_abs: &str) -> (r: Result<String, ErrorKind>)
    ensures
        match r {
            Ok(name) => alive && spec_file_name(path_abs@) == Some(name@),
            Err(e) => if !alive {
                e == ErrorKind::NotConnected
            } else {
                spec_file_name(path_abs@) is None && e == ErrorKind::NoSuchFileOrDirectory
            },
        },
{
    if !alive {
        return Err(ErrorKind::NotConnected);
    }
    let n = path_abs.unicode_len();
    match file_name_of(path_abs, n) {
        Some(name) => Ok(name),
        None => Err(ErrorKind::NoSuchFileOrDirectory),
    }
}

/// The directory an upload is unpacked into: the parent of the
/// destination, or the root when it has none.
pub fn upload_dir(path_abs: &str) -> (r: String)
    requires
        is_abs(path_abs@),
    ensures
        r@ == match spec_parent(path_abs@) {
            Some(p) => p,
            None => "/"@,
        },
{
    proof {
        reveal_strlit("/");
    }
    let n = path_abs.unicode_len();
    match parent_of(path_abs, n) {
        Some(p) => p,
        None => String::from_str("/"),
    }
}

/// After an upload the destination must exist; the byte count of the
/// upload is the declared size.
pub fn create_file_finish(exists_after: bool, size: u64) -> (r: Result<u64, ErrorKind>)
    ensures
        match r {
            Ok(s) => exists_after && s == size,
            Err(e) => !exists_after && e == ErrorKind::NoSuchFileOrDirectory,
        },
{
    if exists_after {
        Ok(size)
    } else {
        Err(ErrorKind::NoSuchFileOrDirectory)
    }
}

/// Where a download archives from: the parent directory of the source
/// (the root when it has none) and the source's file name. A source
/// without a file name cannot be archived.
pub fn open_file_paths(alive: bool, src_abs: &str) -> (r: Result<(String, String), ErrorKind>)
    requires
        is_abs(src_abs@),
    ensures
        match r {
            Ok(p) => alive && p.0@ == (match spec_parent(src_abs@) {
                Some(par) => par,
                None => "/"@,
            }) && spec_file_name(src_abs@) == Some(p.1@),
            Err(e) => if !alive {
                e == ErrorKind::NotConnected
            } else {
                spec_file_name(src_abs@) is None && e == ErrorKind::NoSuchFileOrDirectory
            },
        },
{
    if !alive {
        return Err(ErrorKind::NotConnected);
    }
    let parent = upload_dir(src_abs);
    let n = src_abs.unicode_len();
    match file_name_of(src_abs, n) {
        Some(name) => Ok((parent, name)),
        None => Err(ErrorKind::NoSuchFileOrDirectory),
    }
}

} // verus!
