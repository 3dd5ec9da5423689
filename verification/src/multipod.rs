//! The namespace virtualization layer: many pods, each with its
//! containers, presented as one directory tree rooted at `/`, with
//! paths of the shape `/pod-name/container-name/path/inside`.
//!
//! The layer owns a single-container session. An operation decomposes
//! its path; with no pod selector it answers from the pod inventory,
//! with a pod but no container from that pod's container inventory,
//! and with both it temporarily rebinds the session, delegates, and
//! restores the previous binding — on success and on failure alike.

use vstd::prelude::*;
use vstd::string::*;
use crate::client::{ContainerSession, ContainerSessionV};
use crate::errors::ErrorKind;
use crate::kube_path::{KubePath, KubePathV, spec_from_path};
use crate::listing::{FileEntry, FileEntryV, FileKind};
use crate::paths::is_abs;

verus! {

/// The multi-pod client: a single-container session whose binding is
/// rewritten under the hood. An empty pod or container name stands
/// for "not selected".
#[derive(Clone, Debug)]
pub struct MultiPodSession {
    pub kube: ContainerSession,
}

/// The pod selector currently bound, if any.
pub open spec fn spec_pod_name(v: ContainerSessionV) -> Option<Seq<char>> {
    if v.pod_name.len() == 0 {
        None
    } else {
        Some(v.pod_name)
    }
}

/// The container selector currently bound; meaningful only under a
/// bound pod.
pub open spec fn spec_container_name(v: ContainerSessionV) -> Option<Seq<char>> {
    if v.pod_name.len() == 0 || v.container.len() == 0 {
        None
    } else {
        Some(v.container)
    }
}

/// `/pod/container` with `rest` appended under it; an absolute `rest`
/// is appended relative to that base, and an empty one leaves the
/// base alone.
pub open spec fn spec_prefixed(pod: Seq<char>, container: Seq<char>, rest: Seq<char>) -> Seq<
    char,
> {
    let base = seq!['/'] + pod + seq!['/'] + container;
    let rel = if is_abs(rest) {
        rest.subrange(1, rest.len() as int)
    } else {
        rest
    };
    if rel.len() == 0 {
        base
    } else {
        base + seq!['/'] + rel
    }
}

/// A path reported by the container client, re-rooted under the bound
/// pod and container; untouched while no full binding is active.
pub open spec fn spec_fix_path(v: ContainerSessionV, p: Seq<char>) -> Seq<char> {
    if spec_pod_name(v) is None || spec_container_name(v) is None {
        p
    } else {
        spec_prefixed(v.pod_name, v.container, p)
    }
}

/// The virtual working directory: `/`, `/pod`, or the container's
/// working directory re-rooted under `/pod/container`.
pub open spec fn spec_virtual_pwd(v: ContainerSessionV) -> Seq<char> {
    if spec_pod_name(v) is None {
        seq!['/']
    } else if spec_container_name(v) is None {
        seq!['/'] + v.pod_name
    } else {
        spec_prefixed(v.pod_name, v.container, v.wrkdir)
    }
}

/// Which level of the virtual tree a decomposed path addresses.
#[derive(Clone, Debug)]
pub enum Dispatch {
    AtRoot,
    AtPod(String),
    AtContainer(String, String),
    AtPath(String, String, String),
}

pub enum DispatchV {
    AtRoot,
    AtPod(Seq<char>),
    AtContainer(Seq<char>, Seq<char>),
    AtPath(Seq<char>, Seq<char>, Seq<char>),
}

impl View for Dispatch {
    type V = DispatchV;

    open spec fn view(&self) -> DispatchV {
        match self {
            Dispatch::AtRoot => DispatchV::AtRoot,
            Dispatch::AtPod(p) => DispatchV::AtPod(p@),
            Dispatch::AtContainer(p, c) => DispatchV::AtContainer(p@, c@),
            Dispatch::AtPath(p, c, rest) => DispatchV::AtPath(p@, c@, rest@),
        }
    }
}

/// The level a decomposed path addresses.
pub open spec fn spec_classify(p: KubePathV) -> DispatchV {
    match p.pod {
        None => DispatchV::AtRoot,
        Some(pod) => match p.container {
            None => DispatchV::AtPod(pod),
            Some(container) => match p.path {
                None => DispatchV::AtContainer(pod, container),
                Some(rest) => DispatchV::AtPath(pod, container, rest),
            },
        },
    }
}

/// Sorts a decomposed path into the level it addresses; the single
/// switch every operation dispatches over.
pub fn classify(p: &KubePath) -> (r: Dispatch)
    ensures
        r@ == spec_classify(p@),
{
    match &p.pod {
        None => Dispatch::AtRoot,
        Some(pod) => match &p.container {
            None => Dispatch::AtPod(pod.clone()),
            Some(container) => match &p.path {
                None => Dispatch::AtContainer(pod.clone(), container.clone()),
                Some(rest) => Dispatch::AtPath(pod.clone(), container.clone(), rest.clone()),
            },
        },
    }
}

/// The session binding with the selectors overwritten.
pub open spec fn spec_enter_scope(
    v: ContainerSessionV,
    pod: Seq<char>,
    container: Seq<char>,
) -> ContainerSessionV {
    ContainerSessionV { pod_name: pod, container: container, ..v }
}

/// The session binding with the saved selectors put back.
pub open spec fn spec_leave_scope(
    v: ContainerSessionV,
    prev_pod: Seq<char>,
    prev_container: Seq<char>,
) -> ContainerSessionV {
    ContainerSessionV { pod_name: prev_pod, container: prev_container, ..v }
}

impl MultiPodSession {
    /// A fresh session with no pod or container selected.
    pub fn new() -> (r: MultiPodSession)
        ensures
            r.kube@.pod_name.len() == 0,
            r.kube@.container.len() == 0,
            r.kube@.wrkdir == "/"@,
            !r.kube@.connected,
            r.kube.wf(),
    {
        proof {
            reveal_strlit("");
        }
        MultiPodSession { kube: ContainerSession::new("", "") }
    }

    /// The bound pod selector, if any.
    pub fn pod_name(&self) -> (r: Option<&str>)
        ensures
            match r {
                Some(p) => spec_pod_name(self.kube@) == Some(p@),
                None => spec_pod_name(self.kube@) is None,
            },
    {
        if self.kube.pod_name.as_str().unicode_len() == 0 {
            None
        } else {
            Some(self.kube.pod_name.as_str())
        }
    }

    /// The bound container selector: only meaningful when a pod is
    /// bound as well.
    pub fn container_name(&self) -> (r: Option<&str>)
        ensures
            match r {
                Some(c) => spec_container_name(self.kube@) == Some(c@),
                None => spec_container_name(self.kube@) is None,
            },
    {
        if self.kube.pod_name.as_str().unicode_len() == 0 {
            return None;
        }
        if self.kube.container.as_str().unicode_len() == 0 {
            None
        } else {
            Some(self.kube.container.as_str())
        }
    }

    /// Decomposes a caller path against the current selectors.
    pub fn kube_path(&self, path: &str) -> (r: KubePath)
        ensures
            r@ == spec_from_path(spec_pod_name(self.kube@), spec_container_name(self.kube@), path@),
            r.wf(),
    {
        KubePath::from_path(self.pod_name(), self.container_name(), path)
    }

    /// Overwrites the selectors for one delegated call and hands back
    /// the previous ones.
    pub fn enter_scope(&mut self, pod: &str, container: &str) -> (prev: (String, String))
        ensures
            final(self).kube@ == spec_enter_scope(old(self).kube@, pod@, container@),
            prev.0@ == old(self).kube@.pod_name,
            prev.1@ == old(self).kube@.container,
    {
        let prev_pod = self.kube.pod_name.clone();
        let prev_container = self.kube.container.clone();
        self.kube.pod_name = String::from_str(pod);
        self.kube.container = String::from_str(container);
        (prev_pod, prev_container)
    }

    /// Restores the selectors that `enter_scope` saved.
    pub fn leave_scope(&mut self, prev: (String, String))
        ensures
            final(self).kube@ == spec_leave_scope(old(self).kube@, prev.0@, prev.1@),
    {
        self.kube.pod_name = prev.0;
        self.kube.container = prev.1;
    }

    /// A path reported by the container client, re-rooted under the
    /// bound pod and container.
    pub fn fix_absolute_path(&self, f: FileEntry) -> (r: FileEntry)
        ensures
            r@ == (FileEntryV { path: spec_fix_path(self.kube@, f@.path), ..f@ }),
    {
        let pod = match self.pod_name() {
            Some(p) => String::from_str(p),
            None => {
                return f;
            },
        };
        let container = match self.container_name() {
            Some(c) => String::from_str(c),
            None => {
                return f;
            },
        };
        let ghost old_path = f@.path;
        let FileEntry { path, kind, pex, uid, gid, size, modified, symlink } = f;
        let n = path.as_str().unicode_len();
        let rel: String = if n > 0 && path.as_str().get_char(0) == '/' {
            String::from_str(path.as_str().substring_char(1, n))
        } else {
            path
        };
        let mut p = String::from_str("/");
        p.append(pod.as_str());
        p.append("/");
        p.append(container.as_str());
        if rel.as_str().unicode_len() > 0 {
            p.append("/");
            p.append(rel.as_str());
        }
        proof {
            reveal_strlit("/");
            assert(p@ =~= spec_prefixed(self.kube@.pod_name, self.kube@.container, old_path));
        }
        FileEntry { path: p, kind, pex, uid, gid, size, modified, symlink }
    }

    /// The virtual working directory; touching the container level
    /// needs a live session.
    pub fn pwd(&self, alive: bool) -> (r: Result<String, ErrorKind>)
        ensures
            match r {
                Ok(w) => w@ == spec_virtual_pwd(self.kube@) && (spec_pod_name(self.kube@) is Some
                    && spec_container_name(self.kube@) is Some ==> alive),
                Err(e) => !alive && spec_pod_name(self.kube@) is Some
                    && spec_container_name(self.kube@) is Some && e == ErrorKind::NotConnected,
            },
    {
        proof {
            reveal_strlit("/");
        }
        let pod = match self.pod_name() {
            Some(p) => String::from_str(p),
            None => {
                let r = String::from_str("/");
                proof {
                    assert(r@ =~= spec_virtual_pwd(self.kube@));
                }
                return Ok(r);
            },
        };
        let container = match self.container_name() {
            Some(c) => String::from_str(c),
            None => {
                let mut r = String::from_str("/");
                r.append(pod.as_str());
                proof {
                    assert(r@ =~= spec_virtual_pwd(self.kube@));
                }
                return Ok(r);
            },
        };
        let wrk = match self.kube.pwd(alive) {
            Ok(w) => w,
            Err(e) => {
                return Err(e);
            },
        };
        let n = wrk.as_str().unicode_len();
        let rel: String = if n > 0 && wrk.as_str().get_char(0) == '/' {
            String::from_str(wrk.as_str().substring_char(1, n))
        } else {
            wrk
        };
        let mut p = String::from_str("/");
        p.append(pod.as_str());
        p.append("/");
        p.append(container.as_str());
        if rel.as_str().unicode_len() > 0 {
            p.append("/");
            p.append(rel.as_str());
        }
        proof {
            assert(p@ =~= spec_prefixed(self.kube@.pod_name, self.kube@.container,
                self.kube@.wrkdir));
        }
        Ok(p)
    }

    /// Whether the client counts as connected: with no pod bound, a
    /// bound API connection suffices; with a pod bound, the liveness
    /// poll decides.
    pub fn is_connected(&self, alive: bool) -> (r: bool)
        ensures
            r == if spec_pod_name(self.kube@) is None {
                self.kube@.connected
            } else {
                alive
            },
    {
        match self.pod_name() {
            None => self.kube.connected,
            Some(_) => alive,
        }
    }

    /// Running a command needs both selectors bound.
    pub fn exec_allowed(&self) -> (r: Result<(), ErrorKind>)
        ensures
            match r {
                Ok(_) => spec_pod_name(self.kube@) is Some && spec_container_name(self.kube@)
                    is Some,
                Err(e) => (spec_pod_name(self.kube@) is None || spec_container_name(self.kube@)
                    is None) && e == ErrorKind::ProtocolError,
            },
    {
        if self.pod_name().is_none() || self.container_name().is_none() {
            Err(ErrorKind::ProtocolError)
        } else {
            Ok(())
        }
    }
}

/// The binding after the pod stage of a directory change, and its
/// outcome. A named pod is committed only when the inventory confirms
/// it; naming no pod unbinds the selector. On failure nothing
/// changes.
pub open spec fn spec_set_pod(
    v: ContainerSessionV,
    path: KubePathV,
    ev: Option<Result<bool, ErrorKind>>,
) -> (ContainerSessionV, Result<(), ErrorKind>) {
    match path.pod {
        Some(pod) => match ev {
            Some(Ok(true)) => (ContainerSessionV { pod_name: pod, ..v }, Ok(())),
            Some(Ok(false)) => (v, Err(ErrorKind::NoSuchFileOrDirectory)),
            Some(Err(e)) => (v, Err(e)),
            None => (v, Err(ErrorKind::ProtocolError)),
        },
        None => (ContainerSessionV { pod_name: Seq::empty(), ..v }, Ok(())),
    }
}

/// The binding after the container stage, and what remains to do: the
/// remainder path to change into, or nothing — in which case the
/// working directory resets to the container root. Any validation
/// failure rolls the pod selector back to `prev_pod`.
pub open spec fn spec_set_container(
    v: ContainerSessionV,
    path: KubePathV,
    prev_pod: Seq<char>,
    ev: Option<Result<bool, ErrorKind>>,
) -> (ContainerSessionV, Result<Option<Seq<char>>, ErrorKind>) {
    match path.container {
        Some(c) => match ev {
            Some(Ok(true)) => spec_cd_rest(ContainerSessionV { container: c, ..v }, path),
            Some(Ok(false)) => (
                ContainerSessionV { pod_name: prev_pod, ..v },
                Err(ErrorKind::NoSuchFileOrDirectory),
            ),
            Some(Err(e)) => (ContainerSessionV { pod_name: prev_pod, ..v }, Err(e)),
            None => (ContainerSessionV { pod_name: prev_pod, ..v }, Err(ErrorKind::ProtocolError)),
        },
        None => spec_cd_rest(ContainerSessionV { container: Seq::empty(), ..v }, path),
    }
}

pub open spec fn spec_cd_rest(v: ContainerSessionV, path: KubePathV) -> (
    ContainerSessionV,
    Result<Option<Seq<char>>, ErrorKind>,
) {
    match path.path {
        Some(p) => (v, Ok(Some(p))),
        None => (ContainerSessionV { wrkdir: seq!['/'], ..v }, Ok(None)),
    }
}

/// The binding after the delegated directory change: restored to the
/// saved selectors when it failed, kept when it succeeded.
pub open spec fn spec_cd_finish(
    v: ContainerSessionV,
    prev_pod: Seq<char>,
    prev_container: Seq<char>,
    cd: Result<(), ErrorKind>,
) -> (ContainerSessionV, Result<(), ErrorKind>) {
    match cd {
        Ok(_) => (v, Ok(())),
        Err(e) => (
            ContainerSessionV { pod_name: prev_pod, container: prev_container, ..v },
            Err(e),
        ),
    }
}

impl MultiPodSession {
    /// The pod stage of a directory change; `ev` is the inventory's
    /// answer whether the named pod exists, asked only when one is
    /// named.
    pub fn change_dir_set_pod(
        &mut self,
        path: &KubePath,
        ev: Option<Result<bool, ErrorKind>>,
    ) -> (r: Result<(), ErrorKind>)
        ensures
            ({
                let (nv, rr) = spec_set_pod(old(self).kube@, path@, ev);
                final(self).kube@ == nv && r == rr
            }),
    {
        match &path.pod {
            Some(pod) => match ev {
                Some(Ok(true)) => {
                    self.kube.pod_name = pod.clone();
                    Ok(())
                },
                Some(Ok(false)) => Err(ErrorKind::NoSuchFileOrDirectory),
                Some(Err(e)) => Err(e),
                None => Err(ErrorKind::ProtocolError),
            },
            None => {
                self.kube.pod_name = String::new();
                Ok(())
            },
        }
    }

    /// The container stage of a directory change; `prev_pod` is the
    /// selector saved before the pod stage, put back on any failure.
    pub fn change_dir_set_container(
        &mut self,
        path: &KubePath,
        prev_pod: &str,
        ev: Option<Result<bool, ErrorKind>>,
    ) -> (r: Result<Option<String>, ErrorKind>)
        ensures
            ({
                let (nv, rr) = spec_set_container(old(self).kube@, path@, prev_pod@, ev);
                &&& final(self).kube@ == nv
                &&& match r {
                    Ok(opt) => rr is Ok && (match opt {
                        Some(p) => rr->Ok_0 == Some(p@),
                        None => rr->Ok_0 is None,
                    }),
                    Err(e) => rr == Err::<Option<Seq<char>>, ErrorKind>(e),
                }
            }),
    {
        proof {
            reveal_strlit("/");
        }
        match &path.container {
            Some(c) => match ev {
                Some(Ok(true)) => {
                    self.kube.container = c.clone();
                    self.change_dir_rest(path)
                },
                Some(Ok(false)) => {
                    self.kube.pod_name = String::from_str(prev_pod);
                    Err(ErrorKind::NoSuchFileOrDirectory)
                },
                Some(Err(e)) => {
                    self.kube.pod_name = String::from_str(prev_pod);
                    Err(e)
                },
                None => {
                    self.kube.pod_name = String::from_str(prev_pod);
                    Err(ErrorKind::ProtocolError)
                },
            },
            None => {
                self.kube.container = String::new();
                self.change_dir_rest(path)
            },
        }
    }

    fn change_dir_rest(&mut self, path: &KubePath) -> (r: Result<Option<String>, ErrorKind>)
        ensures
            ({
                let (nv, rr) = spec_cd_rest(old(self).kube@, path@);
                &&& final(self).kube@ == nv
                &&& rr is Ok
                &&& match r {
                    Ok(opt) => match opt {
                        Some(p) => rr->Ok_0 == Some(p@),
                        None => rr->Ok_0 is None,
                    },
                    Err(_) => false,
                }
            }),
    {
        proof {
            reveal_strlit("/");
        }
        match &path.path {
            Some(p) => Ok(Some(p.clone())),
            None => {
                self.kube.wrkdir = String::from_str("/");
                proof {
                    assert(self.kube.wrkdir@ =~= seq!['/']);
                }
                Ok(None)
            },
        }
    }

    /// The last stage of a directory change: on a failed delegated
    /// change both selectors go back to what they were.
    pub fn change_dir_finish(
        &mut self,
        prev_pod: String,
        prev_container: String,
        cd: Result<(), ErrorKind>,
    ) -> (r: Result<(), ErrorKind>)
        ensures
            ({
                let (nv, rr) = spec_cd_finish(old(self).kube@, prev_pod@, prev_container@, cd);
                final(self).kube@ == nv && r == rr
            }),
    {
        match cd {
            Ok(_) => Ok(()),
            Err(e) => {
                self.kube.pod_name = prev_pod;
                self.kube.container = prev_container;
                Err(e)
            },
        }
    }
}

/// Law: a delegated call dispatched at path level cannot move the
/// binding — rebinding and then restoring the saved selectors is the
/// identity on the session, whether or not the delegated call
/// succeeded in between.
pub proof fn lemma_scope_restores_binding(
    v: ContainerSessionV,
    pod: Seq<char>,
    container: Seq<char>,
)
    ensures
        spec_leave_scope(spec_enter_scope(v, pod, container), v.pod_name, v.container) == v,
{
}

/// Law: whichever stage of a directory change fails — pod validation,
/// container validation, or the delegated change itself — the
/// environment binding (pod, container and working directory) after
/// the call equals the binding before it.
pub proof fn lemma_failed_change_dir_preserves_binding(
    v: ContainerSessionV,
    path: KubePathV,
    ev_pod: Option<Result<bool, ErrorKind>>,
    ev_cont: Option<Result<bool, ErrorKind>>,
    cd: Result<(), ErrorKind>,
)
    ensures
        ({
            let (v1, r1) = spec_set_pod(v, path, ev_pod);
            &&& (r1 is Err ==> v1 == v)
            &&& (r1 is Ok ==> {
                let (v2, r2) = spec_set_container(v1, path, v.pod_name, ev_cont);
                &&& (r2 is Err ==> v2 == v)
                &&& (r2 is Ok && r2->Ok_0 is Some ==> {
                    let (v3, r3) = spec_cd_finish(v2, v.pod_name, v.container, cd);
                    r3 is Err ==> v3.pod_name == v.pod_name && v3.container == v.container
                        && v3.wrkdir == v.wrkdir
                })
            })
        }),
{
}

/// The synthetic entry standing for the virtual root.
pub open spec fn spec_root_entry() -> FileEntryV {
    FileEntryV {
        path: seq!['/'],
        kind: FileKind::Directory,
        pex: None,
        uid: None,
        gid: None,
        size: 0,
        modified: None,
        symlink: None,
    }
}

/// The synthetic directory entry standing for a pod.
pub open spec fn spec_pod_entry(name: Seq<char>) -> FileEntryV {
    FileEntryV {
        path: seq!['/'] + name,
        kind: FileKind::Directory,
        pex: None,
        uid: None,
        gid: None,
        size: 0,
        modified: None,
        symlink: None,
    }
}

/// The synthetic directory entry standing for a container of a pod.
pub open spec fn spec_container_entry(pod: Seq<char>, name: Seq<char>) -> FileEntryV {
    FileEntryV {
        path: seq!['/'] + pod + seq!['/'] + name,
        kind: FileKind::Directory,
        pex: None,
        uid: None,
        gid: None,
        size: 0,
        modified: None,
        symlink: None,
    }
}

/// Stating the virtual root: a synthetic directory entry at `/`.
pub fn stat_root() -> (r: FileEntry)
    ensures
        r@ == spec_root_entry(),
        r.wf(),
{
    proof {
        reveal_strlit("/");
    }
    let r = FileEntry {
        path: String::from_str("/"),
        kind: FileKind::Directory,
        pex: None,
        uid: None,
        gid: None,
        size: 0,
        modified: None,
        symlink: None,
    };
    proof {
        assert(r@.path =~= seq!['/']);
    }
    r
}

/// The directory listing of the virtual root: one entry per pod name
/// in the inventory, in inventory order.
pub fn pods_to_entries(names: &Vec<String>) -> (r: Vec<FileEntry>)
    ensures
        r.deep_view() == names.deep_view().map_values(|n: Seq<char>| spec_pod_entry(n)),
{
    proof {
        reveal_strlit("/");
    }
    let ghost target = names.deep_view().map_values(|n: Seq<char>| spec_pod_entry(n));
    let mut out: Vec<FileEntry> = Vec::new();
    let mut i: usize = 0;
    while i < names.len()
        invariant
            i <= names.len(),
            target == names.deep_view().map_values(|n: Seq<char>| spec_pod_entry(n)),
            out.deep_view() =~= target.take(i as int),
        decreases names.len() - i,
    {
        let mut p = String::from_str("/");
        p.append(names[i].as_str());
        let e = FileEntry {
            path: p,
            kind: FileKind::Directory,
            pex: None,
            uid: None,
            gid: None,
            size: 0,
            modified: None,
            symlink: None,
        };
        proof {
            reveal_strlit("/");
            assert(names.deep_view()[i as int] == names@[i as int]@);
            assert(e@.path =~= seq!['/'] + names.deep_view()[i as int]);
            assert(e@ == spec_pod_entry(names.deep_view()[i as int]));
        }
        let ghost prevv = out@;
        let ghost prev = out.deep_view();
        out.push(e);
        i += 1;
        proof {
            assert(out.deep_view() == Seq::new(out@.len(), |j: int| out@[j].deep_view()));
            assert(prev == Seq::new(prevv.len(), |j: int| prevv[j].deep_view()));
            assert(prev.len() == i - 1);
            assert(prevv.len() == i - 1);
            assert(out@.len() == i);
            assert forall|k: int| 0 <= k < i implies out.deep_view()[k] == target[k] by {
                assert(out@ == prevv.push(e));
                if k < i - 1 {
                    assert(out@[k] == prevv[k]);
                    assert(out.deep_view()[k] == prevv[k].deep_view());
                    assert(prev[k] == prevv[k].deep_view());
                    assert(prev[k] == target.take(i - 1)[k]);
                } else {
                    assert(out@[k] == e);
                    assert(out.deep_view()[k] == e@);
                }
            }
            assert(out.deep_view() =~= target.take(i as int));
        }
    }
    proof {
        assert(target.take(names.len() as int) =~= target);
    }
    out
}

/// The directory listing of a pod: one entry per container name in
/// the inventory, in inventory order.
pub fn containers_to_entries(pod: &str, names: &Vec<String>) -> (r: Vec<FileEntry>)
    ensures
        r.deep_view() == names.deep_view().map_values(
            |n: Seq<char>| spec_container_entry(pod@, n),
        ),
{
    proof {
        reveal_strlit("/");
    }
    let ghost target = names.deep_view().map_values(|n: Seq<char>| spec_container_entry(pod@, n));
    let mut out: Vec<FileEntry> = Vec::new();
    let mut i: usize = 0;
    while i < names.len()
        invariant
            i <= names.len(),
            target == names.deep_view().map_values(|n: Seq<char>| spec_container_entry(pod@, n)),
            out.deep_view() =~= target.take(i as int),
        decreases names.len() - i,
    {
        let mut p = String::from_str("/");
        p.append(pod);
        p.append("/");
        p.append(names[i].as_str());
        let e = FileEntry {
            path: p,
            kind: FileKind::Directory,
            pex: None,
            uid: None,
            gid: None,
            size: 0,
            modified: None,
            symlink: None,
        };
        proof {
            reveal_strlit("/");
            assert(names.deep_view()[i as int] == names@[i as int]@);
            assert(e@.path =~= seq!['/'] + pod@ + seq!['/'] + names.deep_view()[i as int]);
            assert(e@ == spec_container_entry(pod@, names.deep_view()[i as int]));
        }
        let ghost prevv = out@;
        let ghost prev = out.deep_view();
        out.push(e);
        i += 1;
        proof {
            assert(out.deep_view() == Seq::new(out@.len(), |j: int| out@[j].deep_view()));
            assert(prev == Seq::new(prevv.len(), |j: int| prevv[j].deep_view()));
            assert(prev.len() == i - 1);
            assert(prevv.len() == i - 1);
            assert(out@.len() == i);
            assert forall|k: int| 0 <= k < i implies out.deep_view()[k] == target[k] by {
                assert(out@ == prevv.push(e));
                if k < i - 1 {
                    assert(out@[k] == prevv[k]);
                    assert(out.deep_view()[k] == prevv[k].deep_view());
                    assert(prev[k] == prevv[k].deep_view());
                    assert(prev[k] == target.take(i - 1)[k]);
                } else {
                    assert(out@[k] == e);
                    assert(out.deep_view()[k] == e@);
                }
            }
            assert(out.deep_view() =~= target.take(i as int));
        }
    }
    proof {
        assert(target.take(names.len() as int) =~= target);
    }
    out
}

/// Whether `key` is one of the inventory names.
pub fn name_listed(names: &Vec<String>, key: &str) -> (r: bool)
    ensures
        r == names.deep_view().contains(key@),
{
    let owned = String::from_str(key);
    let mut i: usize = 0;
    while i < names.len()
        invariant
            i <= names.len(),
            owned@ == key@,
            forall|k: int| 0 <= k < i ==> names.deep_view()[k] != key@,
        decreases names.len() - i,
    {
        proof {
            assert(names.deep_view()[i as int] == names@[i as int]@);
        }
        if names[i].eq(&owned) {
            proof {
                assert(names.deep_view()[i as int] == key@);
            }
            return true;
        }
        i += 1;
    }
    proof {
        assert(!names.deep_view().contains(key@));
    }
    false
}

/// Stating a pod: its synthetic entry when the inventory lists it,
/// and `NoSuchFileOrDirectory` when it does not.
pub fn stat_pod(pod: &str, names: &Vec<String>) -> (r: Result<FileEntry, ErrorKind>)
    ensures
        match r {
            Ok(e) => names.deep_view().contains(pod@) && e@ == spec_pod_entry(pod@) && e.wf(),
            Err(k) => !names.deep_view().contains(pod@) && k == ErrorKind::NoSuchFileOrDirectory,
        },
{
    proof {
        reveal_strlit("/");
    }
    if name_listed(names, pod) {
        let mut p = String::from_str("/");
        p.append(pod);
        let e = FileEntry {
            path: p,
            kind: FileKind::Directory,
            pex: None,
            uid: None,
            gid: None,
            size: 0,
            modified: None,
            symlink: None,
        };
        proof {
            assert(e@.path =~= seq!['/'] + pod@);
        }
        Ok(e)
    } else {
        Err(ErrorKind::NoSuchFileOrDirectory)
    }
}

/// Stating a container of the bound pod: its synthetic entry when the
/// pod's inventory lists it.
pub fn stat_container(pod: &str, container: &str, names: &Vec<String>) -> (r: Result<
    FileEntry,
    ErrorKind,
>)
    ensures
        match r {
            Ok(e) => names.deep_view().contains(container@)
                && e@ == spec_container_entry(pod@, container@) && e.wf(),
            Err(k) => !names.deep_view().contains(container@)
                && k == ErrorKind::NoSuchFileOrDirectory,
        },
{
    proof {
        reveal_strlit("/");
    }
    if name_listed(names, container) {
        let mut p = String::from_str("/");
        p.append(pod);
        p.append("/");
        p.append(container);
        let e = FileEntry {
            path: p,
            kind: FileKind::Directory,
            pex: None,
            uid: None,
            gid: None,
            size: 0,
            modified: None,
            symlink: None,
        };
        proof {
            assert(e@.path =~= seq!['/'] + pod@ + seq!['/'] + container@);
        }
        Ok(e)
    } else {
        Err(ErrorKind::NoSuchFileOrDirectory)
    }
}

impl MultiPodSession {
    /// Container-level inventory operations need a bound pod.
    pub fn require_pod(&self) -> (r: Result<String, ErrorKind>)
        ensures
            match r {
                Ok(p) => spec_pod_name(self.kube@) == Some(p@),
                Err(e) => spec_pod_name(self.kube@) is None
                    && e == ErrorKind::NoSuchFileOrDirectory,
            },
    {
        match self.pod_name() {
            Some(p) => Ok(String::from_str(p)),
            None => Err(ErrorKind::NoSuchFileOrDirectory),
        }
    }
}

/// Where a write-style operation (create, copy, move, symlink, file
/// transfer) may run: only at path level; anywhere higher the
/// operation needs a pod and a container and is refused.
pub fn write_target(d: &Dispatch) -> (r: Result<String, ErrorKind>)
    ensures
        match r {
            Ok(p) => d@ is AtPath && p@ == d@->AtPath_2,
            Err(e) => !(d@ is AtPath) && e == ErrorKind::CouldNotOpenFile,
        },
{
    match d {
        Dispatch::AtPath(_, _, p) => Ok(p.clone()),
        _ => Err(ErrorKind::CouldNotOpenFile),
    }
}

/// Where a remove operation may run: only at path level.
pub fn remove_target(d: &Dispatch) -> (r: Result<String, ErrorKind>)
    ensures
        match r {
            Ok(p) => d@ is AtPath && p@ == d@->AtPath_2,
            Err(e) => !(d@ is AtPath) && e == ErrorKind::CouldNotRemoveFile,
        },
{
    match d {
        Dispatch::AtPath(_, _, p) => Ok(p.clone()),
        _ => Err(ErrorKind::CouldNotRemoveFile),
    }
}

/// Where `setstat` does real work: at path level; at the selector
/// levels it is a silent no-op.
pub fn setstat_target(d: &Dispatch) -> (r: Option<String>)
    ensures
        match r {
            Some(p) => d@ is AtPath && p@ == d@->AtPath_2,
            None => !(d@ is AtPath),
        },
{
    match d {
        Dispatch::AtPath(_, _, p) => Some(p.clone()),
        _ => None,
    }
}

} // verus!
