use backend_launcher::locator::{backend_candidates, locate, BackendCandidate, BackendKind};
use backend_launcher::paths::AbsPath;
use backend_launcher::supervisor::{
    plan_spawn, record_line, render_path, working_dir_for, Invocation, ProcessRecord,
};

fn at(parts: &[&str]) -> AbsPath {
    AbsPath::from_parts(parts.iter().map(|p| p.to_string()).collect())
}

#[test]
fn working_dir_under_dist_is_grandparent() {
    let wd = working_dir_for(&at(&["app", "backend", "dist", "main.exe"]));
    assert_eq!(wd, at(&["app", "backend"]));
}

#[test]
fn working_dir_otherwise_is_parent() {
    let wd = working_dir_for(&at(&["app", "backend-api.exe"]));
    assert_eq!(wd, at(&["app"]));
    let nested = working_dir_for(&at(&["opt", "tools", "backend-api.exe"]));
    assert_eq!(nested, at(&["opt", "tools"]));
}

#[test]
fn spawn_plan_for_dist_native() {
    // the backend exists only as /app/backend/dist/main.exe: the spawn must
    // run it directly, from /app/backend
    let exe_dir = at(&["app"]);
    let cands = backend_candidates(
        &exe_dir,
        &at(&["cwd"]),
        &None,
        &"main.exe".to_string(),
        &"main.py".to_string(),
    );
    let target = at(&["app", "backend", "dist", "main.exe"]);
    let flags: Vec<bool> = cands.iter().map(|c| *c == target).collect();
    let found = locate(&cands, &flags).unwrap();
    let plan = plan_spawn(&found, &exe_dir, &"python".to_string());
    assert_eq!(plan.working_dir, at(&["app", "backend"]));
    match plan.invocation {
        Invocation::Direct { program } => {
            assert_eq!(program, at(&["app", "backend", "dist", "main.exe"]))
        },
        Invocation::ViaInterpreter { .. } => panic!("a native executable runs directly"),
    }
}

#[test]
fn spawn_plan_for_script_uses_interpreter() {
    let exe_dir = at(&["app"]);
    let cand = BackendCandidate {
        path: at(&["app", "resources", "main.py"]),
        kind: BackendKind::InterpretedScript,
    };
    let plan = plan_spawn(&cand, &exe_dir, &"python".to_string());
    assert_eq!(plan.working_dir, at(&["app", "resources"]));
    match plan.invocation {
        Invocation::ViaInterpreter { interpreter, script } => {
            assert_eq!(interpreter, "python");
            assert_eq!(script, at(&["app", "resources", "main.py"]));
        },
        Invocation::Direct { .. } => panic!("a script runs through the interpreter"),
    }
}

#[test]
fn spawn_plan_log_paths() {
    let exe_dir = at(&["app"]);
    let cand = BackendCandidate {
        path: at(&["app", "backend-api.exe"]),
        kind: BackendKind::NativeExecutable,
    };
    let plan = plan_spawn(&cand, &exe_dir, &"python".to_string());
    assert_eq!(plan.out_log, at(&["app", "backend-out.log"]));
    assert_eq!(plan.err_log, at(&["app", "backend-err.log"]));
    assert_eq!(plan.pid_log, at(&["app", "backend-pid.log"]));
}

#[test]
fn render_path_joins_components() {
    assert_eq!(render_path(&at(&["app", "backend", "dist"])), "/app/backend/dist");
    assert_eq!(render_path(&at(&[])), "");
}

#[test]
fn record_line_format() {
    let rec = ProcessRecord { pid: 4217, started_from: at(&["app", "backend-api.exe"]) };
    assert_eq!(record_line(&rec), "pid: 4217, started_from: /app/backend-api.exe");
    let small = ProcessRecord { pid: 0, started_from: at(&["b"]) };
    assert_eq!(record_line(&small), "pid: 0, started_from: /b");
    let big = ProcessRecord { pid: 1000208, started_from: at(&["x", "y.py"]) };
    assert_eq!(record_line(&big), "pid: 1000208, started_from: /x/y.py");
}
