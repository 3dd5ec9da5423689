//! Decomposition of a caller-supplied virtual path into the pod
//! selector, the container selector and the path that remains inside
//! the container.
//!
//! Virtual paths have the shape `/pod-name/container-name/path/to/file`.
//! A relative path is interpreted against the currently selected pod
//! and container; a container can never be selected without a pod.

use vstd::prelude::*;
use vstd::string::*;
use crate::paths::{is_abs, spec_components, spec_join_abs, spec_join_rel, components_of,
    join_components_abs, join_components_rel};

verus! {

/// A decomposed virtual path. The container selector can only be
/// present when the pod selector is.
#[derive(Clone, Debug, PartialEq)]
pub struct KubePath {
    pub pod: Option<String>,
    pub container: Option<String>,
    pub path: Option<String>,
}

pub struct KubePathV {
    pub pod: Option<Seq<char>>,
    pub container: Option<Seq<char>>,
    pub path: Option<Seq<char>>,
}

impl View for KubePath {
    type V = KubePathV;

    open spec fn view(&self) -> KubePathV {
        KubePathV {
            pod: match self.pod {
                Some(p) => Some(p@),
                None => None,
            },
            container: match self.container {
                Some(c) => Some(c@),
                None => None,
            },
            path: match self.path {
                Some(p) => Some(p@),
                None => None,
            },
        }
    }
}

impl KubePathV {
    /// The selector hierarchy: no container without a pod.
    pub open spec fn wf(self) -> bool {
        self.container is Some ==> self.pod is Some
    }
}

impl KubePath {
    pub open spec fn wf(&self) -> bool {
        self@.wf()
    }
}

/// What an absolute virtual path decomposes to: the first component is
/// the pod, the second the container, and the rest — rooted again at
/// `/` — the path inside the container; absent pieces stay empty.
pub open spec fn spec_from_absolute(p: Seq<char>) -> KubePathV {
    let cs = spec_components(p, 0);
    KubePathV {
        pod: if cs.len() >= 1 { Some(cs[0]) } else { None },
        container: if cs.len() >= 2 { Some(cs[1]) } else { None },
        path: if cs.len() >= 3 { Some(spec_join_abs(cs, 2)) } else { None },
    }
}

/// What a relative virtual path decomposes to against the current
/// selectors: missing selectors are taken from the leading components,
/// and the remainder is kept relative only when the container selector
/// was already bound, since otherwise the remainder addresses the
/// container's root.
pub open spec fn spec_from_relative(
    pod: Option<Seq<char>>,
    container: Option<Seq<char>>,
    p: Seq<char>,
) -> KubePathV {
    let cs = spec_components(p, 0);
    let i1: int = if pod is Some { 0 } else if cs.len() > 0 { 1 } else { 0 };
    let rpod = match pod {
        Some(x) => Some(x),
        None => if cs.len() > 0 { Some(cs[0]) } else { None },
    };
    let i2: int = if container is Some { i1 } else if cs.len() > i1 { i1 + 1 } else { i1 };
    let rcont = match container {
        Some(x) => Some(x),
        None => if cs.len() > i1 { Some(cs[i1]) } else { None },
    };
    let rpath = if container is Some {
        if cs.len() > i2 { Some(spec_join_rel(cs, i2)) } else { None }
    } else {
        if cs.len() > i2 { Some(spec_join_abs(cs, i2)) } else { None }
    };
    KubePathV { pod: rpod, container: rcont, path: rpath }
}

pub open spec fn spec_from_path(
    pod: Option<Seq<char>>,
    container: Option<Seq<char>>,
    p: Seq<char>,
) -> KubePathV {
    if is_abs(p) {
        spec_from_absolute(p)
    } else {
        spec_from_relative(pod, container, p)
    }
}

impl KubePath {
    /// Decomposes `path` against the current pod and container
    /// selectors. A container selector without a pod selector is
    /// meaningless for a relative path and is excluded.
    pub fn from_path(pod: Option<&str>, container: Option<&str>, path: &str) -> (r: KubePath)
        requires
            is_abs(path@) || !(pod is None && container is Some),
        ensures
            r@ == spec_from_path(
                match pod { Some(p) => Some(p@), None => None },
                match container { Some(c) => Some(c@), None => None },
                path@,
            ),
            r.wf(),
    {
        let n = path.unicode_len();
        if n > 0 && path.get_char(0) == '/' {
            Self::from_absolute_path(path)
        } else {
            Self::from_relative_path(pod, container, path)
        }
    }

    /// Decomposes an absolute virtual path `/pod/container/rest`.
    pub fn from_absolute_path(path: &str) -> (r: KubePath)
        ensures
            r@ == spec_from_absolute(path@),
            r.wf(),
    {
        let cs = components_of(path);
        let pod: Option<String> = if cs.len() >= 1 {
            Some(cs[0].clone())
        } else {
            None
        };
        let container: Option<String> = if cs.len() >= 2 {
            Some(cs[1].clone())
        } else {
            None
        };
        let rest: Option<String> = if cs.len() >= 3 {
            Some(join_components_abs(&cs, 2))
        } else {
            None
        };
        let r = KubePath { pod, container, path: rest };
        proof {
            assert(cs.deep_view().len() == cs.len());
            assert(r@ == spec_from_absolute(path@));
        }
        r
    }

    /// Decomposes a relative virtual path against the current
    /// selectors; a container selector requires a pod selector.
    pub fn from_relative_path(pod: Option<&str>, container: Option<&str>, path: &str) -> (r:
        KubePath)
        requires
            !(pod is None && container is Some),
        ensures
            r@ == spec_from_relative(
                match pod { Some(p) => Some(p@), None => None },
                match container { Some(c) => Some(c@), None => None },
                path@,
            ),
            r.wf(),
    {
        let cs = components_of(path);
        proof {
            assert(cs.deep_view().len() == cs.len());
        }
        let mut i: usize = 0;
        let rpod: Option<String> = match pod {
            Some(x) => Some(String::from_str(x)),
            None => {
                if cs.len() > 0 {
                    i = 1;
                    Some(cs[0].clone())
                } else {
                    None
                }
            },
        };
        let container_given = container.is_some();
        let rcont: Option<String> = match container {
            Some(x) => Some(String::from_str(x)),
            None => {
                if cs.len() > i {
                    let c = cs[i].clone();
                    i = i + 1;
                    Some(c)
                } else {
                    None
                }
            },
        };
        let rpath: Option<String> = if cs.len() > i {
            if container_given {
                Some(join_components_rel(&cs, i))
            } else {
                Some(join_components_abs(&cs, i))
            }
        } else {
            None
        };
        let r = KubePath { pod: rpod, container: rcont, path: rpath };
        proof {
            assert(r@ == spec_from_relative(
                match pod { Some(p) => Some(p@), None => None },
                match container { Some(c) => Some(c@), None => None },
                path@,
            ));
        }
        r
    }
}

/// The selector hierarchy is an invariant of decomposition: however a
/// path is decomposed, a container selector always comes with a pod
/// selector.
pub proof fn lemma_from_path_hierarchy(
    pod: Option<Seq<char>>,
    container: Option<Seq<char>>,
    p: Seq<char>,
)
    requires
        is_abs(p) || !(pod is None && container is Some),
    ensures
        spec_from_path(pod, container, p).wf(),
{
}

} // verus!
