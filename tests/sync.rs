use shepherd::config::{Config, Repository};
use shepherd::sync::{EntryOutcome, SyncKind, SyncRun};

fn inventory(src: &str, entries: Vec<Repository>) -> Config {
    Config::from_parts(src.to_string(), entries)
}

#[test]
fn clone_of_missing_categorised_entry() {
    let c = inventory(
        "/tmp/src",
        vec![Repository::new("r".to_string(), "U".to_string(), Some("c".to_string()))],
    );
    let step = c.sync_step(0, false);
    assert_eq!(step.kind, SyncKind::Clone);
    assert_eq!(step.category_dir, "/tmp/src/c/");
    assert_eq!(step.args, vec!["-C", "/tmp/src/c/", "clone", "U", "r"]);
}

#[test]
fn fetch_of_present_categorised_entry() {
    let c = inventory(
        "/tmp/src",
        vec![Repository::new("r".to_string(), "U".to_string(), Some("c".to_string()))],
    );
    assert_eq!(c.repo_dir(0), "/tmp/src/c//r");
    let step = c.sync_step(0, true);
    assert_eq!(step.kind, SyncKind::Fetch);
    assert_eq!(step.args, vec!["-C", "/tmp/src/c//r", "fetch", "--all"]);
}

#[test]
fn entry_without_category_lives_under_root() {
    let c = inventory("S", vec![Repository::new("n".to_string(), "u".to_string(), None)]);
    assert_eq!(c.repo_dir(0), "S/n");
    assert_eq!(c.sync_step(0, false).args, vec!["-C", "S", "clone", "u", "n"]);
    assert_eq!(c.sync_step(0, true).args, vec!["-C", "S/n", "fetch", "--all"]);
}

#[test]
fn run_visits_every_entry_despite_failures() {
    let c = inventory(
        "S",
        vec![
            Repository::new("a".to_string(), "ua".to_string(), None),
            Repository::new("b".to_string(), "ub".to_string(), None),
        ],
    );
    let mut run = SyncRun::new();
    let first = run.current(&c, false).unwrap();
    assert_eq!(first.name, "a");
    run.record(&c, EntryOutcome::ClientFailed);
    let second = run.current(&c, true).unwrap();
    assert_eq!(second.name, "b");
    assert_eq!(second.kind, SyncKind::Fetch);
    run.record(&c, EntryOutcome::DirectoryFailed);
    assert!(run.current(&c, false).is_none());
}
