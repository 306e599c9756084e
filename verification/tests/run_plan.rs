use apply_tqa_manifest::config::{ProcessConfig, RenamePlan, RunError};

fn config(path: &str, reverse: bool, delete_manifest: bool) -> ProcessConfig {
    ProcessConfig { process_path: path.to_string(), reverse, delete_manifest }
}

fn lines(v: &[&str]) -> Vec<String> {
    v.iter().map(|s| s.to_string()).collect()
}

fn expect_plan(r: Result<RenamePlan, RunError>) -> RenamePlan {
    match r {
        Ok(plan) => plan,
        Err(e) => panic!("expected a plan, got error {:?}", e),
    }
}

fn expect_error(r: Result<RenamePlan, RunError>) -> RunError {
    match r {
        Ok(_) => panic!("expected an error, got a plan"),
        Err(e) => e,
    }
}

#[test]
fn run_missing_directory() {
    let c = config("no_such_dir", false, false);
    let e = expect_error(c.run(false, false, None));
    assert_eq!(e, RunError::PathNotFound);
}

#[test]
fn rerun_after_manifest_deleted() {
    let c = config("dir", false, true);
    let e = expect_error(c.run(true, false, None));
    assert_eq!(e, RunError::ManifestMissing);
}

#[test]
fn run_unreadable_manifest() {
    let c = config("dir", false, false);
    let e = expect_error(c.run(true, true, None));
    assert_eq!(e, RunError::ManifestRead);
}

#[test]
fn run_forward_plan() {
    let c = config("dir", false, false);
    let plan = expect_plan(c.run(true, true, Some(lines(&["photo1.jpg=vacation.jpg"]))));
    assert_eq!(plan.renames.len(), 1);
    assert_eq!(plan.renames[0].source, "photo1.jpg");
    assert_eq!(plan.renames[0].dest, "vacation.jpg");
    assert!(!plan.delete_manifest);
}

#[test]
fn run_reverse_plan() {
    let c = config("dir", true, false);
    let plan = expect_plan(c.run(true, true, Some(lines(&["photo1.jpg=vacation.jpg"]))));
    assert_eq!(plan.renames.len(), 1);
    assert_eq!(plan.renames[0].source, "vacation.jpg");
    assert_eq!(plan.renames[0].dest, "photo1.jpg");
}

#[test]
fn run_malformed_line_continues() {
    let c = config("dir", false, false);
    let plan = expect_plan(c.run(true, true, Some(lines(&["onlyname", "a.tmp=a.txt"]))));
    assert_eq!(plan.renames.len(), 2);
    assert_eq!(plan.renames[0].source, "onlyname");
    assert_eq!(plan.renames[0].dest, "");
    assert_eq!(plan.renames[1].source, "a.tmp");
    assert_eq!(plan.renames[1].dest, "a.txt");
}

#[test]
fn run_delete_manifest_requested() {
    let c = config("dir", false, true);
    let plan = expect_plan(c.run(true, true, Some(lines(&["photo1.jpg=vacation.jpg"]))));
    assert!(plan.delete_manifest);
}

#[test]
fn run_empty_manifest() {
    let c = config("dir", false, false);
    let plan = expect_plan(c.run(true, true, Some(lines(&[]))));
    assert_eq!(plan.renames.len(), 0);
    assert!(!plan.delete_manifest);
}

#[test]
fn run_keeps_manifest_order() {
    let c = config("dir", false, false);
    let plan = expect_plan(c.run(true, true, Some(lines(&["b=1", "a=2", "c=3"]))));
    assert_eq!(plan.renames.len(), 3);
    assert_eq!(plan.renames[0].source, "b");
    assert_eq!(plan.renames[1].source, "a");
    assert_eq!(plan.renames[2].source, "c");
}
