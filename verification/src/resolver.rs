//! Ranked resolution of a relative path against a fixed set of anchor
//! directories.  The candidate order is deterministic; resolution picks the
//! first candidate that exists; the absence of every candidate is a distinct
//! outcome, not an error.

use vstd::prelude::*;
use crate::paths::{AbsPath, RelPath, spec_parent};

verus! {

/// The anchor directories a launch works from: the directory holding the host
/// executable, the current working directory, and an optional, explicitly
/// configured development-tree root used only as a last resort.
pub struct Anchors {
    pub exe_dir: AbsPath,
    pub cwd: AbsPath,
    pub dev_root: Option<AbsPath>,
}

/// The documented candidate order for a resource lookup: below the
/// executable's directory, below its `resources` subdirectory, below its
/// parent, below the current working directory, and — only after all of
/// those — below the configured development root, if any.
pub open spec fn spec_resource_candidates(
    exe_dir: Seq<Seq<char>>,
    cwd: Seq<Seq<char>>,
    dev_root: Option<Seq<Seq<char>>>,
    rel: Seq<Seq<char>>,
) -> Seq<Seq<Seq<char>>> {
    let base = seq![
        exe_dir + rel,
        exe_dir.push("resources"@) + rel,
        spec_parent(exe_dir) + rel,
        cwd + rel,
    ];
    match dev_root {
        Some(d) => base.push(d + rel),
        None => base,
    }
}

/// The ghost image of `anchors.dev_root`.
pub open spec fn spec_dev_root(anchors: Anchors) -> Option<Seq<Seq<char>>> {
    match anchors.dev_root {
        Some(d) => Some(d@),
        None => None,
    }
}

/// Builds the ordered candidate list for `rel`, exactly in the documented
/// priority order.
pub fn candidate_paths(anchors: &Anchors, rel: &RelPath) -> (r: Vec<AbsPath>)
    ensures
        r.deep_view() == spec_resource_candidates(
            anchors.exe_dir@,
            anchors.cwd@,
            spec_dev_root(*anchors),
            rel@,
        ),
{
    let mut r: Vec<AbsPath> = Vec::new();
    let resources_name: String = String::from_str("resources");
    r.push(anchors.exe_dir.join(rel));
    r.push(anchors.exe_dir.child(&resources_name).join(rel));
    r.push(anchors.exe_dir.parent().join(rel));
    r.push(anchors.cwd.join(rel));
    match &anchors.dev_root {
        Some(d) => {
            r.push(d.join(rel));
        },
        None => {},
    }
    proof {
        assert(r.deep_view() =~= spec_resource_candidates(
            anchors.exe_dir@,
            anchors.cwd@,
            spec_dev_root(*anchors),
            rel@,
        ));
    }
    r
}

/// The index of the first `true` in an existence report, if any: the rank of
/// the first candidate that exists.
pub open spec fn spec_first_hit(exists: Seq<bool>) -> Option<int>
    decreases exists.len(),
{
    if exists.len() == 0 {
        None
    } else if exists[0] {
        Some(0)
    } else {
        match spec_first_hit(exists.drop_first()) {
            Some(i) => Some(i + 1),
            None => None,
        }
    }
}

/// `spec_first_hit` really is the first hit: it yields an in-range index of an
/// existing candidate before which none exists, and yields nothing exactly
/// when no candidate exists.
pub proof fn lemma_first_hit_characterises(exists: Seq<bool>)
    ensures
        spec_first_hit(exists) is None <==> (forall|i: int|
            0 <= i < exists.len() ==> !exists[i]),
        spec_first_hit(exists) matches Some(i) ==> 0 <= i < exists.len()
            && exists[i]
            && (forall|j: int| 0 <= j < i ==> !exists[j]),
    decreases exists.len(),
{
    if exists.len() > 0 {
        lemma_first_hit_characterises(exists.drop_first());
        if !exists[0] {
            assert forall|i: int| 0 <= i < exists.len() && spec_first_hit(exists) is None
                implies !exists[i] by {
                if i > 0 {
                    assert(!exists.drop_first()[i - 1]);
                }
            }
            match spec_first_hit(exists.drop_first()) {
                Some(k) => {
                    assert forall|j: int| 0 <= j < k + 1 implies !exists[j] by {
                        if j > 0 {
                            assert(!exists.drop_first()[j - 1]);
                        }
                    }
                    assert(exists[k + 1] == exists.drop_first()[k]);
                },
                None => {},
            }
        }
    }
}

/// Picks the first candidate whose existence probe came back `true`.
/// `exists[i]` reports whether `cands[i]` exists; the result is the first
/// existing candidate, or `None` when none exists.
pub fn resolve_from_probes(cands: &Vec<AbsPath>, exists: &Vec<bool>) -> (r: Option<AbsPath>)
    requires
        cands@.len() == exists@.len(),
    ensures
        match spec_first_hit(exists@) {
            Some(i) => r matches Some(p) && p@ == cands@[i]@,
            None => r is None,
        },
{
    let mut i: usize = 0;
    proof {
        lemma_first_hit_characterises(exists@);
    }
    while i < cands.len()
        invariant
            cands@.len() == exists@.len(),
            i <= cands.len(),
            forall|j: int| 0 <= j < i ==> !exists@[j],
            spec_first_hit(exists@) matches Some(k) ==> i <= k,
        decreases cands.len() - i,
    {
        proof {
            lemma_first_hit_characterises(exists@);
        }
        if exists[i] {
            proof {
                lemma_first_hit_characterises(exists@);
                let fh = spec_first_hit(exists@);
                if fh is None {
                    assert(!exists@[i as int]);
                }
                let k = fh->0;
                if k < i {
                    assert(!exists@[k]);
                }
                assert(fh == Some(i as int));
            }
            return Some(cands[i].duplicate());
        }
        i = i + 1;
    }
    proof {
        lemma_first_hit_characterises(exists@);
    }
    None
}

} // verus!
