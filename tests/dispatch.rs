use shepherd::config::Config;
use shepherd::dispatch::Action;
use shepherd::{help_msg, run, State};

fn state(v: &[&str]) -> State {
    State::new(v.iter().map(|s| s.to_string()).collect(), "/h")
}

#[test]
fn help_prints_usage() {
    let mut c = Config::new("/h");
    match run(&state(&["help"]), &mut c) {
        Action::Print(t) => {
            assert_eq!(t, help_msg());
            assert!(t.starts_with("Git repository manager"));
        }
        other => panic!("unexpected {:?}", other),
    }
}

#[test]
fn dump_config_action() {
    let mut c = Config::new("/h");
    assert!(matches!(run(&state(&["--dump-config"]), &mut c), Action::DumpConfig));
}

#[test]
fn add_then_duplicate_add() {
    let mut c = Config::new("/h");
    c.read_config("/h/.config/shepherd/config.toml", None);
    let add = state(&["add", "myrepo", "https://example.com/x.git"]);
    match run(&add, &mut c) {
        Action::SaveAndReport(t) => assert_eq!(t, "Repository has been added"),
        other => panic!("unexpected {:?}", other),
    }
    match run(&add, &mut c) {
        Action::Print(t) => assert_eq!(t, "Repository is already being tracked"),
        other => panic!("unexpected {:?}", other),
    }
    assert_eq!(c.repositories.len(), 1);
    assert_eq!(c.repositories[0].name, "myrepo");
    assert_eq!(c.repositories[0].url, "https://example.com/x.git");
    assert_eq!(c.repositories[0].category, None);
}

#[test]
fn categorised_add_appends_entry() {
    let mut c = Config::new("/h");
    let st = state(&["add", "--category", "libs", "foo", "https://example.com/f.git"]);
    assert!(matches!(run(&st, &mut c), Action::SaveAndReport(_)));
    assert_eq!(c.repositories[0].category.as_deref(), Some("libs"));
    assert_eq!(c.repositories[0].name, "foo");
}

#[test]
fn list_action_holds_table() {
    let mut c = Config::new("/h");
    run(&state(&["add", "myrepo", "https://example.com/x.git"]), &mut c);
    match run(&state(&["list"]), &mut c) {
        Action::PrintLines(ls) => {
            assert_eq!(ls.len(), 2);
            assert_eq!(ls[1], "myrepo https://example.com/x.git ");
        }
        other => panic!("unexpected {:?}", other),
    }
}

#[test]
fn fetch_action() {
    let mut c = Config::new("/h");
    assert!(matches!(run(&state(&["fetch"]), &mut c), Action::Fetch));
}
