//! Staging of the packaged resource file: once the source has been resolved,
//! a copy is planned into every destination directory that needs one, and a
//! destination that already holds the file is never touched.  Only a missing
//! source is a hard failure; a failed copy at a destination is a diagnostic,
//! not an error.

use vstd::prelude::*;
use crate::paths::AbsPath;

verus! {

/// The one hard failure of staging: no candidate location holds the packaged
/// resource file.
#[derive(Clone, Copy, Debug, PartialEq, Eq, Structural)]
pub enum StagingError {
    ResourceNotFound,
}

/// One destination for the staged resource: a directory that should hold a
/// copy, and the file name the copy takes there.
pub struct StagingTarget {
    pub dir: AbsPath,
    pub file_name: String,
}

/// One planned copy: the resolved source file and the destination file.
pub struct CopyOp {
    pub source: AbsPath,
    pub dest: AbsPath,
}

/// The outcome of planning a staging run: the resolved source and the copies
/// that must actually be performed, in target order.
pub struct StagePlan {
    pub source: AbsPath,
    pub ops: Vec<CopyOp>,
}

/// The destination file of a target: its directory with its file name
/// appended.
pub open spec fn spec_dest(dir: Seq<Seq<char>>, file_name: Seq<char>) -> Seq<Seq<char>> {
    dir.push(file_name)
}

/// The destination file of each target, in order.
pub open spec fn spec_dests_of(targets: Seq<StagingTarget>) -> Seq<Seq<Seq<char>>> {
    targets.map_values(|t: StagingTarget| spec_dest(t.dir@, t.file_name@))
}

/// The destination file of each planned copy, in order.
pub open spec fn spec_op_dests(ops: Seq<CopyOp>) -> Seq<Seq<Seq<char>>> {
    ops.map_values(|op: CopyOp| op.dest@)
}

/// The destination files a staging run writes, given which destinations
/// already exist: exactly the destinations whose file is absent, in target
/// order.
pub open spec fn spec_planned_dests(
    dests: Seq<Seq<Seq<char>>>,
    dest_exists: Seq<bool>,
) -> Seq<Seq<Seq<char>>>
    decreases dests.len(),
{
    if dests.len() == 0 || dest_exists.len() == 0 {
        Seq::empty()
    } else {
        let rest = spec_planned_dests(dests.drop_first(), dest_exists.drop_first());
        if dest_exists[0] {
            rest
        } else {
            seq![dests[0]] + rest
        }
    }
}

/// Plans one staging run.  `source` is the resolution outcome for the packaged
/// resource; `dest_exists[i]` reports whether the destination file of
/// `targets[i]` already exists.  A missing source is the only error; an
/// existing destination is never planned for writing.
pub fn plan_stage(
    source: Option<AbsPath>,
    targets: &Vec<StagingTarget>,
    dest_exists: &Vec<bool>,
) -> (r: Result<StagePlan, StagingError>)
    requires
        targets@.len() == dest_exists@.len(),
    ensures
        r is Err <==> source is None,
        r is Err ==> r->Err_0 == StagingError::ResourceNotFound,
        r matches Ok(plan) ==> {
            &&& plan.source@ == source->0@
            &&& spec_op_dests(plan.ops@) == spec_planned_dests(
                spec_dests_of(targets@),
                dest_exists@,
            )
            &&& forall|i: int|
                0 <= i < plan.ops@.len() ==> (#[trigger] plan.ops@[i]).source@ == source->0@
        },
{
    let src = match source {
        Some(p) => p,
        None => {
            return Err(StagingError::ResourceNotFound);
        },
    };
    let mut ops: Vec<CopyOp> = Vec::new();
    let mut i: usize = 0;
    while i < targets.len()
        invariant
            targets@.len() == dest_exists@.len(),
            i <= targets.len(),
            spec_op_dests(ops@) == spec_planned_dests(
                spec_dests_of(targets@.take(i as int)),
                dest_exists@.take(i as int),
            ),
            forall|j: int| 0 <= j < ops@.len() ==> (#[trigger] ops@[j]).source@ == src@,
        decreases targets.len() - i,
    {
        if !dest_exists[i] {
            let dest = targets[i].dir.child(&targets[i].file_name);
            ops.push(CopyOp { source: src.duplicate(), dest });
        }
        proof {
            lemma_planned_dests_step(spec_dests_of(targets@), dest_exists@, i as int);
            assert(spec_dests_of(targets@.take(i + 1)) =~= spec_dests_of(targets@).take(
                i + 1,
            ));
            assert(spec_dests_of(targets@.take(i as int)) =~= spec_dests_of(
                targets@,
            ).take(i as int));
            assert(spec_op_dests(ops@) =~= spec_planned_dests(
                spec_dests_of(targets@.take(i + 1)),
                dest_exists@.take(i + 1),
            ));
        }
        i = i + 1;
    }
    proof {
        assert(targets@.take(targets@.len() as int) =~= targets@);
        assert(dest_exists@.take(dest_exists@.len() as int) =~= dest_exists@);
    }
    Ok(StagePlan { source: src, ops })
}

/// Extending a planning problem by one destination extends the planned writes
/// by that destination exactly when its file is absent.
proof fn lemma_planned_dests_step(dests: Seq<Seq<Seq<char>>>, dest_exists: Seq<bool>, i: int)
    requires
        dests.len() == dest_exists.len(),
        0 <= i < dests.len(),
    ensures
        spec_planned_dests(dests.take(i + 1), dest_exists.take(i + 1))
            == if dest_exists[i] {
                spec_planned_dests(dests.take(i), dest_exists.take(i))
            } else {
                spec_planned_dests(dests.take(i), dest_exists.take(i)).push(dests[i])
            },
    decreases i,
{
    if i == 0 {
        assert(dests.take(1).drop_first() =~= Seq::<Seq<Seq<char>>>::empty());
        assert(dests.take(0) =~= Seq::<Seq<Seq<char>>>::empty());
        assert(spec_planned_dests(dests.take(1).drop_first(), dest_exists.take(1).drop_first())
            == Seq::<Seq<Seq<char>>>::empty());
        assert(spec_planned_dests(dests.take(0), dest_exists.take(0)) == Seq::<Seq<
            Seq<char>,
        >>::empty());
        assert(dests.take(1)[0] == dests[0]);
        assert(dest_exists.take(1)[0] == dest_exists[0]);
        if !dest_exists[0] {
            assert(seq![dests[0]] + Seq::<Seq<Seq<char>>>::empty() =~= Seq::<Seq<
                Seq<char>,
            >>::empty().push(dests[0]));
            assert(spec_planned_dests(dests.take(1), dest_exists.take(1)) == seq![dests[0]]
                + Seq::<Seq<Seq<char>>>::empty());
        } else {
            assert(spec_planned_dests(dests.take(1), dest_exists.take(1)) == Seq::<Seq<
                Seq<char>,
            >>::empty());
        }
    } else {
        let d1 = dests.drop_first();
        let e1 = dest_exists.drop_first();
        lemma_planned_dests_step(d1, e1, i - 1);
        assert(dests.take(i + 1).drop_first() =~= d1.take(i));
        assert(dest_exists.take(i + 1).drop_first() =~= e1.take(i));
        assert(dests.take(i).drop_first() =~= d1.take(i - 1));
        assert(dest_exists.take(i).drop_first() =~= e1.take(i - 1));
        let rest_long = spec_planned_dests(d1.take(i), e1.take(i));
        let rest_short = spec_planned_dests(d1.take(i - 1), e1.take(i - 1));
        assert(spec_planned_dests(dests.take(i + 1), dest_exists.take(i + 1))
            == if dest_exists[0] {
                rest_long
            } else {
                seq![dests[0]] + rest_long
            });
        assert(spec_planned_dests(dests.take(i), dest_exists.take(i))
            == if dest_exists[0] {
                rest_short
            } else {
                seq![dests[0]] + rest_short
            });
        assert(e1[i - 1] == dest_exists[i]);
        assert(d1[i - 1] == dests[i]);
        if !dest_exists[i] {
            assert(rest_long == rest_short.push(dests[i]));
            if !dest_exists[0] {
                assert(seq![dests[0]] + rest_short.push(dests[i]) =~= (seq![dests[0]]
                    + rest_short).push(dests[i]));
            }
        }
    }
}

/// An existence report in which every destination already holds the file.
pub open spec fn spec_all_present(dest_exists: Seq<bool>) -> bool {
    forall|i: int| 0 <= i < dest_exists.len() ==> dest_exists[i]
}

/// Staging is idempotent: when every destination file already exists — as it
/// does after a completed staging run — the planned writes are empty, so a
/// second run copies nothing and leaves every destination's contents as they
/// were.
pub proof fn lemma_staging_idempotent(dests: Seq<Seq<Seq<char>>>, dest_exists: Seq<bool>)
    requires
        dests.len() == dest_exists.len(),
        spec_all_present(dest_exists),
    ensures
        spec_planned_dests(dests, dest_exists) == Seq::<Seq<Seq<char>>>::empty(),
    decreases dests.len(),
{
    if dests.len() > 0 {
        assert(dest_exists[0]);
        assert forall|i: int| 0 <= i < dest_exists.drop_first().len()
            implies dest_exists.drop_first()[i] by {
            assert(dest_exists[i + 1]);
        }
        lemma_staging_idempotent(dests.drop_first(), dest_exists.drop_first());
    }
}

/// A staging run reaches every destination: a destination whose file is
/// absent is among the planned writes, so after the plan is carried out every
/// destination holds the file.
pub proof fn lemma_staging_covers(dests: Seq<Seq<Seq<char>>>, dest_exists: Seq<bool>, i: int)
    requires
        dests.len() == dest_exists.len(),
        0 <= i < dests.len(),
        !dest_exists[i],
    ensures
        spec_planned_dests(dests, dest_exists).contains(dests[i]),
    decreases dests.len(),
{
    if i == 0 {
        assert(spec_planned_dests(dests, dest_exists)[0] == dests[0]);
    } else {
        lemma_staging_covers(dests.drop_first(), dest_exists.drop_first(), i - 1);
        let rest = spec_planned_dests(dests.drop_first(), dest_exists.drop_first());
        let j = choose|j: int| 0 <= j < rest.len() && rest[j] == dests.drop_first()[i - 1];
        if dest_exists[0] {
            assert(spec_planned_dests(dests, dest_exists)[j] == dests[i]);
        } else {
            assert(spec_planned_dests(dests, dest_exists)[j + 1] == dests[i]);
        }
    }
}

/// Running staging twice changes nothing the second time: after a first run
/// every destination holds the file — it either already existed or was among
/// the first run's writes — so a second run, planned against the existence
/// facts the first run leaves behind, performs zero copies and the
/// destinations' contents stay exactly as the first run left them.
pub proof fn lemma_second_run_plans_nothing(
    dests: Seq<Seq<Seq<char>>>,
    before: Seq<bool>,
    after: Seq<bool>,
)
    requires
        dests.len() == before.len(),
        dests.len() == after.len(),
        forall|i: int|
            0 <= i < dests.len() ==> after[i] == (before[i] || spec_planned_dests(
                dests,
                before,
            ).contains(dests[i])),
    ensures
        spec_planned_dests(dests, after) == Seq::<Seq<Seq<char>>>::empty(),
{
    assert forall|i: int| 0 <= i < after.len() implies after[i] by {
        if !before[i] {
            lemma_staging_covers(dests, before, i);
        }
    }
    lemma_staging_idempotent(dests, after);
}

/// Builds the standard destination list of a launch: the application's area
/// below the platform user-data directory, the directory holding the host
/// executable, and — when one is present beside the executable — its backend
/// subdirectory, each receiving the resource under `file_name`.
pub fn standard_targets(
    user_data_dir: &AbsPath,
    app_dir_name: &String,
    exe_dir: &AbsPath,
    backend_dir_name: &String,
    backend_dir_present: bool,
    file_name: &String,
) -> (r: Vec<StagingTarget>)
    ensures
        spec_dests_of(r@) == {
            let base = seq![
                spec_dest(user_data_dir@.push(app_dir_name@), file_name@),
                spec_dest(exe_dir@, file_name@),
            ];
            if backend_dir_present {
                base.push(spec_dest(exe_dir@.push(backend_dir_name@), file_name@))
            } else {
                base
            }
        },
{
    let mut r: Vec<StagingTarget> = Vec::new();
    r.push(StagingTarget {
        dir: user_data_dir.child(app_dir_name),
        file_name: file_name.clone(),
    });
    r.push(StagingTarget { dir: exe_dir.duplicate(), file_name: file_name.clone() });
    if backend_dir_present {
        r.push(StagingTarget {
            dir: exe_dir.child(backend_dir_name),
            file_name: file_name.clone(),
        });
    }
    proof {
        let base = seq![
            spec_dest(user_data_dir@.push(app_dir_name@), file_name@),
            spec_dest(exe_dir@, file_name@),
        ];
        if backend_dir_present {
            assert(spec_dests_of(r@) =~= base.push(
                spec_dest(exe_dir@.push(backend_dir_name@), file_name@),
            ));
        } else {
            assert(spec_dests_of(r@) =~= base);
        }
    }
    r
}

} // verus!
