//! Discovery of the backend entry point.  An ordered, deployment-aware list
//! of candidate locations is probed; the first candidate that exists wins and
//! is classified by its file extension as a native executable (run directly)
//! or an interpreted script (run through an interpreter).

use vstd::prelude::*;
use crate::paths::{AbsPath, spec_parent};
use crate::resolver::{spec_first_hit, lemma_first_hit_characterises};

verus! {

/// How a located backend entry point must be invoked.
#[derive(Clone, Copy, Debug, PartialEq, Eq, Structural)]
pub enum BackendKind {
    NativeExecutable,
    InterpretedScript,
}

/// The failure of backend discovery: no candidate entry point exists.
#[derive(Clone, Copy, Debug, PartialEq, Eq, Structural)]
pub enum LocateError {
    BackendNotFound,
}

/// A located backend entry point: where it is and how to invoke it.
pub struct BackendCandidate {
    pub path: AbsPath,
    pub kind: BackendKind,
}

/// The native-executable file extension, character by character.
pub open spec fn spec_native_ext() -> Seq<char> {
    seq!['.', 'e', 'x', 'e']
}

/// Whether a file name carries the native-executable extension.
pub open spec fn spec_is_native_name(name: Seq<char>) -> bool {
    name.len() >= 4 && name.subrange(name.len() - 4, name.len() as int) == spec_native_ext()
}

/// The kind a file name implies: the native-executable extension means a
/// native executable; any other name is an interpreted script.
pub open spec fn spec_kind_of(name: Seq<char>) -> BackendKind {
    if spec_is_native_name(name) {
        BackendKind::NativeExecutable
    } else {
        BackendKind::InterpretedScript
    }
}

/// Classifies a file name by its extension.
pub fn classify_name(name: &String) -> (k: BackendKind)
    ensures
        k == spec_kind_of(name@),
{
    let s = name.as_str();
    let n = s.unicode_len();
    if n >= 4 {
        let c0 = s.get_char(n - 4);
        let c1 = s.get_char(n - 3);
        let c2 = s.get_char(n - 2);
        let c3 = s.get_char(n - 1);
        if c0 == '.' && c1 == 'e' && c2 == 'x' && c3 == 'e' {
            proof {
                assert(name@.subrange(name@.len() - 4, name@.len() as int)
                    =~= spec_native_ext());
            }
            BackendKind::NativeExecutable
        } else {
            proof {
                if spec_is_native_name(name@) {
                    let suf = name@.subrange(name@.len() - 4, name@.len() as int);
                    assert(suf[0] == c0 && suf[1] == c1 && suf[2] == c2 && suf[3] == c3);
                }
            }
            BackendKind::InterpretedScript
        }
    } else {
        BackendKind::InterpretedScript
    }
}

/// The fixed directory names of the deployment layouts the locator knows:
/// the backend subdirectory, the distribution-output folder nested inside it,
/// and the packaged resources folder.
pub open spec fn spec_backend_dir() -> Seq<char> {
    seq!['b', 'a', 'c', 'k', 'e', 'n', 'd']
}

pub open spec fn spec_dist_dir() -> Seq<char> {
    seq!['d', 'i', 's', 't']
}

pub open spec fn spec_resources_dir() -> Seq<char> {
    seq!['r', 'e', 's', 'o', 'u', 'r', 'c', 'e', 's']
}

/// The documented candidate order for the backend entry point, from the most
/// specific packaged layout to the most generic development layout: the
/// native binary nested in the backend's distribution folder, the packaged
/// script under `resources`, the native binary beside the host executable,
/// one and two directory levels above it, the current working directory, and
/// finally the configured development root, if any.
pub open spec fn spec_backend_candidates(
    exe_dir: Seq<Seq<char>>,
    cwd: Seq<Seq<char>>,
    dev_root: Option<Seq<Seq<char>>>,
    native_name: Seq<char>,
    script_name: Seq<char>,
) -> Seq<Seq<Seq<char>>> {
    let base = seq![
        exe_dir.push(spec_backend_dir()).push(spec_dist_dir()).push(native_name),
        exe_dir.push(spec_resources_dir()).push(script_name),
        exe_dir.push(native_name),
        spec_parent(exe_dir).push(native_name),
        spec_parent(spec_parent(exe_dir)).push(native_name),
        cwd.push(native_name),
    ];
    match dev_root {
        Some(d) => base.push(d.push(native_name)),
        None => base,
    }
}

/// The ghost image of an optional development root.
pub open spec fn spec_opt_root(dev_root: Option<AbsPath>) -> Option<Seq<Seq<char>>> {
    match dev_root {
        Some(d) => Some(d@),
        None => None,
    }
}

/// Builds the ordered backend candidate list, exactly in the documented
/// deployment-likelihood order.
pub fn backend_candidates(
    exe_dir: &AbsPath,
    cwd: &AbsPath,
    dev_root: &Option<AbsPath>,
    native_name: &String,
    script_name: &String,
) -> (r: Vec<AbsPath>)
    ensures
        r.deep_view() == spec_backend_candidates(
            exe_dir@,
            cwd@,
            spec_opt_root(*dev_root),
            native_name@,
            script_name@,
        ),
{
    let backend: String = String::from_str("backend");
    let dist: String = String::from_str("dist");
    let resources: String = String::from_str("resources");
    proof {
        reveal_strlit("backend");
        reveal_strlit("dist");
        reveal_strlit("resources");
        assert(backend@ =~= spec_backend_dir());
        assert(dist@ =~= spec_dist_dir());
        assert(resources@ =~= spec_resources_dir());
    }
    let mut r: Vec<AbsPath> = Vec::new();
    r.push(exe_dir.child(&backend).child(&dist).child(native_name));
    r.push(exe_dir.child(&resources).child(script_name));
    r.push(exe_dir.child(native_name));
    r.push(exe_dir.parent().child(native_name));
    r.push(exe_dir.parent().parent().child(native_name));
    r.push(cwd.child(native_name));
    match dev_root {
        Some(d) => {
            r.push(d.child(native_name));
        },
        None => {},
    }
    proof {
        assert(r.deep_view() =~= spec_backend_candidates(
            exe_dir@,
            cwd@,
            spec_opt_root(*dev_root),
            native_name@,
            script_name@,
        ));
    }
    r
}

/// Picks the first existing backend candidate and classifies it by its file
/// name; reports `BackendNotFound` exactly when no candidate exists.
/// `exists[i]` reports whether `cands[i]` exists; every candidate must name a
/// file, that is, have at least one component.
pub fn locate(cands: &Vec<AbsPath>, exists: &Vec<bool>) -> (r: Result<
    BackendCandidate,
    LocateError,
>)
    requires
        cands@.len() == exists@.len(),
        forall|i: int| 0 <= i < cands@.len() ==> (#[trigger] cands@[i])@.len() > 0,
    ensures
        match spec_first_hit(exists@) {
            Some(i) => r matches Ok(c) && c.path@ == cands@[i]@ && c.kind == spec_kind_of(
                cands@[i]@.last(),
            ),
            None => r matches Err(e) && e == LocateError::BackendNotFound,
        },
{
    let mut i: usize = 0;
    proof {
        lemma_first_hit_characterises(exists@);
    }
    while i < cands.len()
        invariant
            cands@.len() == exists@.len(),
            forall|j: int| 0 <= j < cands@.len() ==> (#[trigger] cands@[j])@.len() > 0,
            i <= cands.len(),
            forall|j: int| 0 <= j < i ==> !exists@[j],
            spec_first_hit(exists@) matches Some(k) ==> i <= k,
        decreases cands.len() - i,
    {
        proof {
            lemma_first_hit_characterises(exists@);
        }
        if exists[i] {
            proof {
                let fh = spec_first_hit(exists@);
                if fh is None {
                    assert(!exists@[i as int]);
                }
                let k = fh->0;
                if k < i {
                    assert(!exists@[k]);
                }
                assert(fh == Some(i as int));
            }
            let path = cands[i].duplicate();
            let kind = classify_name(path.file_name());
            return Ok(BackendCandidate { path, kind });
        }
        i = i + 1;
    }
    proof {
        lemma_first_hit_characterises(exists@);
    }
    Err(LocateError::BackendNotFound)
}

} // verus!
