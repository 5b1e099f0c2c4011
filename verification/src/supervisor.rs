//! Planning of the backend child process: the working directory it must run
//! in, the exact invocation for its kind, the append-mode log files beside
//! the host executable that capture its output, and the process-record line
//! persisted after a successful spawn.  Carrying the plan out — opening the
//! logs, spawning, writing the record — happens outside the library.

use vstd::prelude::*;
use crate::paths::{AbsPath, spec_parent};
use crate::locator::{BackendCandidate, BackendKind, spec_dist_dir};

verus! {

/// How the child process is started: a native executable is invoked
/// directly; a script is handed to an interpreter as its argument.
pub enum Invocation {
    Direct { program: AbsPath },
    ViaInterpreter { interpreter: String, script: AbsPath },
}

/// Everything a spawn needs: the invocation, the working directory, and the
/// three log files beside the host executable — captured standard output,
/// captured standard error and diagnostics, and the process-identity log.
pub struct SpawnPlan {
    pub invocation: Invocation,
    pub working_dir: AbsPath,
    pub out_log: AbsPath,
    pub err_log: AbsPath,
    pub pid_log: AbsPath,
}

/// A durable note of one successful spawn: the process identifier and the
/// entry point it was started from.
pub struct ProcessRecord {
    pub pid: u64,
    pub started_from: AbsPath,
}

/// The working directory for a located entry point: normally its parent
/// directory; when that parent is the distribution-output folder, the
/// grandparent, so that a distributable build — which nests the binary one
/// level deeper — still runs from the backend's own root.
pub open spec fn spec_working_dir(p: Seq<Seq<char>>) -> Seq<Seq<char>> {
    let par = spec_parent(p);
    if par.len() > 0 && par.last() == spec_dist_dir() {
        spec_parent(par)
    } else {
        par
    }
}

/// Derives the working directory of an entry point.
pub fn working_dir_for(path: &AbsPath) -> (r: AbsPath)
    ensures
        r@ == spec_working_dir(path@),
{
    let par = path.parent();
    if par.depth() > 0 {
        let dist: String = String::from_str("dist");
        proof {
            reveal_strlit("dist");
            assert(dist@ =~= spec_dist_dir());
        }
        let is_dist = *par.file_name() == dist;
        if is_dist {
            par.parent()
        } else {
            par
        }
    } else {
        par
    }
}

/// The names of the three log files kept beside the host executable.
pub open spec fn spec_out_log_name() -> Seq<char> {
    "backend-out.log"@
}

pub open spec fn spec_err_log_name() -> Seq<char> {
    "backend-err.log"@
}

pub open spec fn spec_pid_log_name() -> Seq<char> {
    "backend-pid.log"@
}

/// Builds the complete spawn plan for a located entry point: the kind picks
/// the invocation, the entry point's location picks the working directory,
/// and the log files sit beside the host executable under their fixed names.
pub fn plan_spawn(cand: &BackendCandidate, exe_dir: &AbsPath, interpreter: &String) -> (r:
    SpawnPlan)
    ensures
        r.working_dir@ == spec_working_dir(cand.path@),
        cand.kind == BackendKind::NativeExecutable ==> (r.invocation matches Invocation::Direct {
            program,
        } && program@ == cand.path@),
        cand.kind == BackendKind::InterpretedScript ==> (r.invocation
            matches Invocation::ViaInterpreter { interpreter: itp, script } && itp@ == interpreter@
            && script@ == cand.path@),
        r.out_log@ == exe_dir@.push(spec_out_log_name()),
        r.err_log@ == exe_dir@.push(spec_err_log_name()),
        r.pid_log@ == exe_dir@.push(spec_pid_log_name()),
{
    let invocation = match cand.kind {
        BackendKind::NativeExecutable => Invocation::Direct { program: cand.path.duplicate() },
        BackendKind::InterpretedScript => Invocation::ViaInterpreter {
            interpreter: interpreter.clone(),
            script: cand.path.duplicate(),
        },
    };
    let out_name: String = String::from_str("backend-out.log");
    let err_name: String = String::from_str("backend-err.log");
    let pid_name: String = String::from_str("backend-pid.log");
    SpawnPlan {
        invocation,
        working_dir: working_dir_for(&cand.path),
        out_log: exe_dir.child(&out_name),
        err_log: exe_dir.child(&err_name),
        pid_log: exe_dir.child(&pid_name),
    }
}

/// The decimal digit characters.
pub open spec fn spec_digit(d: nat) -> char {
    if d == 0 {
        '0'
    } else if d == 1 {
        '1'
    } else if d == 2 {
        '2'
    } else if d == 3 {
        '3'
    } else if d == 4 {
        '4'
    } else if d == 5 {
        '5'
    } else if d == 6 {
        '6'
    } else if d == 7 {
        '7'
    } else if d == 8 {
        '8'
    } else {
        '9'
    }
}

/// The decimal rendering of a number, most significant digit first.
pub open spec fn spec_decimal(n: nat) -> Seq<char>
    decreases n,
{
    if n < 10 {
        seq![spec_digit(n)]
    } else {
        spec_decimal(n / 10).push(spec_digit(n % 10))
    }
}

/// Appends one decimal digit character.
fn push_digit(s: &mut String, d: u64)
    requires
        d < 10,
    ensures
        final(s)@ == old(s)@ + seq![spec_digit(d as nat)],
{
    if d == 0 {
        s.append("0");
        proof {
            reveal_strlit("0");
            assert("0"@ =~= seq![spec_digit(0)]);
        }
    } else if d == 1 {
        s.append("1");
        proof {
            reveal_strlit("1");
            assert("1"@ =~= seq![spec_digit(1)]);
        }
    } else if d == 2 {
        s.append("2");
        proof {
            reveal_strlit("2");
            assert("2"@ =~= seq![spec_digit(2)]);
        }
    } else if d == 3 {
        s.append("3");
        proof {
            reveal_strlit("3");
            assert("3"@ =~= seq![spec_digit(3)]);
        }
    } else if d == 4 {
        s.append("4");
        proof {
            reveal_strlit("4");
            assert("4"@ =~= seq![spec_digit(4)]);
        }
    } else if d == 5 {
        s.append("5");
        proof {
            reveal_strlit("5");
            assert("5"@ =~= seq![spec_digit(5)]);
        }
    } else if d == 6 {
        s.append("6");
        proof {
            reveal_strlit("6");
            assert("6"@ =~= seq![spec_digit(6)]);
        }
    } else if d == 7 {
        s.append("7");
        proof {
            reveal_strlit("7");
            assert("7"@ =~= seq![spec_digit(7)]);
        }
    } else if d == 8 {
        s.append("8");
        proof {
            reveal_strlit("8");
            assert("8"@ =~= seq![spec_digit(8)]);
        }
    } else {
        s.append("9");
        proof {
            reveal_strlit("9");
            assert("9"@ =~= seq![spec_digit(9)]);
        }
    }
}

/// Appends the decimal rendering of `n`.
fn push_decimal(s: &mut String, n: u64)
    ensures
        final(s)@ == old(s)@ + spec_decimal(n as nat),
    decreases n,
{
    if n >= 10 {
        push_decimal(s, n / 10);
        push_digit(s, n % 10);
        proof {
            assert(old(s)@ + spec_decimal(n as nat / 10) + seq![spec_digit(n as nat % 10)]
                =~= old(s)@ + spec_decimal(n as nat));
        }
    } else {
        push_digit(s, n);
    }
}

/// The textual rendering of an absolute path: a separator before each
/// component; the root renders as the empty text.
pub open spec fn spec_render_path(p: Seq<Seq<char>>) -> Seq<char>
    decreases p.len(),
{
    if p.len() == 0 {
        Seq::empty()
    } else {
        spec_render_path(p.drop_last()) + seq!['/'] + p.last()
    }
}

/// Renders an absolute path as text.
pub fn render_path(p: &AbsPath) -> (r: String)
    ensures
        r@ == spec_render_path(p@),
{
    let mut s = String::new();
    proof {
        assert(s@ =~= spec_render_path(p@.take(0)));
    }
    let mut i: usize = 0;
    while i < p.parts.len()
        invariant
            s@ == spec_render_path(p@.take(i as int)),
            i <= p.parts.len(),
        decreases p.parts.len() - i,
    {
        s.append("/");
        s.append(p.parts[i].as_str());
        proof {
            reveal_strlit("/");
            assert(p@.take(i + 1).drop_last() =~= p@.take(i as int));
            assert(p@.take(i + 1).last() == p@[i as int]);
            assert(s@ =~= spec_render_path(p@.take(i + 1)));
        }
        i = i + 1;
    }
    proof {
        assert(p@.take(p@.len() as int) =~= p@);
    }
    s
}

/// The process-record line persisted after a successful spawn: the process
/// identifier and the entry point it was started from.
pub open spec fn spec_record_line(pid: u64, started_from: Seq<Seq<char>>) -> Seq<char> {
    "pid: "@ + spec_decimal(pid as nat) + ", started_from: "@ + spec_render_path(started_from)
}

/// Renders the process-record line for one spawn.
pub fn record_line(rec: &ProcessRecord) -> (r: String)
    ensures
        r@ == spec_record_line(rec.pid, rec.started_from@),
{
    let mut s: String = String::from_str("pid: ");
    push_decimal(&mut s, rec.pid);
    s.append(", started_from: ");
    let rendered = render_path(&rec.started_from);
    s.append(rendered.as_str());
    proof {
        assert(s@ =~= spec_record_line(rec.pid, rec.started_from@));
    }
    s
}

} // verus!
