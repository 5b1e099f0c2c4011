use backend_launcher::paths::{AbsPath, RelPath};
use backend_launcher::resolver::{candidate_paths, resolve_from_probes, Anchors};

fn abs(parts: &[&str]) -> AbsPath {
    AbsPath::from_parts(parts.iter().map(|p| p.to_string()).collect())
}

fn rel(parts: &[&str]) -> RelPath {
    RelPath::from_parts(parts.iter().map(|p| p.to_string()).collect())
}

fn probe(cands: &[AbsPath], present: &[AbsPath]) -> Vec<bool> {
    cands.iter().map(|c| present.contains(c)).collect()
}

#[test]
fn candidate_order_without_dev_root() {
    let anchors = Anchors { exe_dir: abs(&["app"]), cwd: abs(&["cwd"]), dev_root: None };
    let cands = candidate_paths(&anchors, &rel(&["assets", "data.db"]));
    let expected = vec![
        abs(&["app", "assets", "data.db"]),
        abs(&["app", "resources", "assets", "data.db"]),
        abs(&["assets", "data.db"]),
        abs(&["cwd", "assets", "data.db"]),
    ];
    assert_eq!(cands, expected);
}

#[test]
fn dev_root_is_last_candidate() {
    let anchors = Anchors {
        exe_dir: abs(&["app"]),
        cwd: abs(&["cwd"]),
        dev_root: Some(abs(&["home", "dev", "tree"])),
    };
    let cands = candidate_paths(&anchors, &rel(&["data.db"]));
    assert_eq!(cands.len(), 5);
    assert_eq!(cands[4], abs(&["home", "dev", "tree", "data.db"]));
}

#[test]
fn resolve_picks_first_existing_candidate() {
    let anchors = Anchors { exe_dir: abs(&["app"]), cwd: abs(&["cwd"]), dev_root: None };
    let cands = candidate_paths(&anchors, &rel(&["data.db"]));
    // both the exe-dir copy and the cwd copy exist: the exe-dir copy ranks first
    let present = vec![abs(&["app", "data.db"]), abs(&["cwd", "data.db"])];
    let found = resolve_from_probes(&cands, &probe(&cands, &present));
    assert_eq!(found, Some(abs(&["app", "data.db"])));
}

#[test]
fn resolve_prefers_resources_copy() {
    // anchors A = /app and its resources subdirectory B = /app/resources;
    // the resource exists only at /app/resources/data.db
    let anchors = Anchors { exe_dir: abs(&["app"]), cwd: abs(&["cwd"]), dev_root: None };
    let cands = candidate_paths(&anchors, &rel(&["data.db"]));
    let present = vec![abs(&["app", "resources", "data.db"])];
    let found = resolve_from_probes(&cands, &probe(&cands, &present));
    assert_eq!(found, Some(abs(&["app", "resources", "data.db"])));
}

#[test]
fn resolve_none_when_absent() {
    let anchors = Anchors {
        exe_dir: abs(&["app"]),
        cwd: abs(&["cwd"]),
        dev_root: Some(abs(&["dev"])),
    };
    let cands = candidate_paths(&anchors, &rel(&["data.db"]));
    let found = resolve_from_probes(&cands, &probe(&cands, &[]));
    assert_eq!(found, None);
}

#[test]
fn resolve_falls_back_to_dev_root() {
    let anchors = Anchors {
        exe_dir: abs(&["app"]),
        cwd: abs(&["cwd"]),
        dev_root: Some(abs(&["dev"])),
    };
    let cands = candidate_paths(&anchors, &rel(&["data.db"]));
    let present = vec![abs(&["dev", "data.db"])];
    let found = resolve_from_probes(&cands, &probe(&cands, &present));
    assert_eq!(found, Some(abs(&["dev", "data.db"])));
}
