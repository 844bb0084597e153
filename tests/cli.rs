use shepherd::cli::{Cmd, ParseIssue};
use shepherd::State;

fn toks(v: &[&str]) -> Vec<String> {
    v.iter().map(|s| s.to_string()).collect()
}

#[test]
fn dump_config_flag_and_default_path() {
    let st = State::new(toks(&["--dump-config"]), "/h");
    assert_eq!(st.cmd, Some(Cmd::DumpConfig));
    assert_eq!(st.config, "/h/.config/shepherd/config.toml");
}

#[test]
fn no_tokens_means_help() {
    let st = State::new(Vec::new(), "/h");
    assert_eq!(st.cmd, Some(Cmd::Help));
}

#[test]
fn add_with_name_and_url() {
    let st = State::new(toks(&["add", "myrepo", "https://example.com/x.git"]), "/h");
    assert_eq!(st.cmd, Some(Cmd::Add));
    assert_eq!(st.name.as_deref(), Some("myrepo"));
    assert_eq!(st.url.as_deref(), Some("https://example.com/x.git"));
    assert_eq!(st.category, None);
}

#[test]
fn categorised_add() {
    let st = State::new(
        toks(&["add", "--category", "libs", "foo", "https://example.com/f.git"]),
        "/h",
    );
    assert_eq!(st.cmd, Some(Cmd::Add));
    assert_eq!(st.name.as_deref(), Some("foo"));
    assert_eq!(st.url.as_deref(), Some("https://example.com/f.git"));
    assert_eq!(st.category.as_deref(), Some("libs"));
}

#[test]
fn short_category_flag() {
    let st = State::new(toks(&["add", "-c", "tools", "bar", "u"]), "/h");
    assert_eq!(st.cmd, Some(Cmd::Add));
    assert_eq!(st.category.as_deref(), Some("tools"));
    assert_eq!(st.name.as_deref(), Some("bar"));
}

#[test]
fn add_without_url_falls_back_to_help() {
    let st = State::new(toks(&["add", "only-name"]), "/h");
    assert_eq!(st.cmd, Some(Cmd::Help));
    assert_eq!(st.name.as_deref(), Some("only-name"));
    assert_eq!(st.url, None);
    assert_eq!(st.issues, vec![ParseIssue::MissingUrl]);
}

#[test]
fn config_flag_takes_next_token() {
    let st = State::new(toks(&["--config", "/tmp/c.toml", "list"]), "/h");
    assert_eq!(st.config, "/tmp/c.toml");
    assert_eq!(st.cmd, Some(Cmd::List));
}

#[test]
fn config_flag_without_operand_keeps_default() {
    let st = State::new(toks(&["fetch", "--config"]), "/h");
    assert_eq!(st.config, "/h/.config/shepherd/config.toml");
    assert_eq!(st.cmd, Some(Cmd::Fetch));
}

#[test]
fn flags_override_verbs() {
    let st = State::new(toks(&["list", "-vh"]), "/h");
    assert_eq!(st.cmd, Some(Cmd::Help));
    let st = State::new(toks(&["fetch", "--help"]), "/h");
    assert_eq!(st.cmd, Some(Cmd::Help));
}

#[test]
fn first_verb_wins() {
    let st = State::new(toks(&["list", "fetch"]), "/h");
    assert_eq!(st.cmd, Some(Cmd::List));
    let st = State::new(toks(&["help", "fetch"]), "/h");
    assert_eq!(st.cmd, Some(Cmd::Help));
}

#[test]
fn unknown_flags_are_ignored() {
    let st = State::new(toks(&["--verbose", "-x", "fetch"]), "/h");
    assert_eq!(st.cmd, Some(Cmd::Fetch));
}

#[test]
fn missing_operands_are_recorded() {
    let st = State::new(toks(&["--config"]), "/h");
    assert_eq!(st.issues, vec![ParseIssue::MissingConfigPath]);
    let st = State::new(toks(&["add"]), "/h");
    assert_eq!(st.issues, vec![ParseIssue::MissingName]);
    let st = State::new(toks(&["add", "-c", "libs"]), "/h");
    assert_eq!(st.issues, vec![ParseIssue::MissingName]);
    assert_eq!(st.category.as_deref(), Some("libs"));
    let st = State::new(toks(&["add", "n"]), "/h");
    assert_eq!(st.issues, vec![ParseIssue::MissingUrl]);
    let st = State::new(toks(&["add", "n", "u"]), "/h");
    assert!(st.issues.is_empty());
}
