//! Chooses what a parsed command does to the inventory.
use vstd::prelude::*;
use crate::cli::{Cmd, State};
use crate::config::{opt_view, Config, RepoView, Repository, added};
use crate::listing::table;

verus! {

/// What the program does after a command has been applied to the inventory.
#[derive(Debug)]
pub enum Action {
    /// Print the text.
    Print(String),
    /// Print each line.
    PrintLines(Vec<String>),
    /// Print the inventory in its stored form.
    DumpConfig,
    /// Save the inventory, then print the text.
    SaveAndReport(String),
    /// Bring the working trees in line with the inventory.
    Fetch,
}

/// The usage text.
pub open spec fn help_text() -> Seq<char> {
    "Git repository manager\n\nUSAGE:\n    shepherd [--help] <command> [<args>]\n\nOPTIONS:\n    -h, --help      Print out this help message\n    --config        Specify the location of the configuration file\n    --dump-config   Dump the current configuration\n    -c, --category  Specify the category when adding a repository\n\nCOMMANDS:\nGeneral\n    help    Print out this help message\n\nManage Repositories\n    add     Add another git repo to keep track of\n    fetch   Update currently tracked repos\n    list    list out the currently tracked repos"@
}

/// The answer to adding a new entry.
pub open spec fn added_message() -> Seq<char> {
    "Repository has been added"@
}

/// The answer to adding an entry that is already tracked.
pub open spec fn tracked_message() -> Seq<char> {
    "Repository is already being tracked"@
}

/// The view of an optional string, empty where absent.
pub open spec fn text_or_empty(o: Option<Seq<char>>) -> Seq<char> {
    match o {
        Some(s) => s,
        None => Seq::empty(),
    }
}

/// The entry that `add` builds from the parsed arguments.
pub open spec fn requested_entry(st: State) -> RepoView {
    RepoView { name: text_or_empty(st@.name), url: text_or_empty(st@.url), category: st@.category }
}

/// The usage text.
pub fn help_msg() -> (r: String)
    ensures
        r@ == help_text(),
{
    String::from_str(
        "Git repository manager\n\nUSAGE:\n    shepherd [--help] <command> [<args>]\n\nOPTIONS:\n    -h, --help      Print out this help message\n    --config        Specify the location of the configuration file\n    --dump-config   Dump the current configuration\n    -c, --category  Specify the category when adding a repository\n\nCOMMANDS:\nGeneral\n    help    Print out this help message\n\nManage Repositories\n    add     Add another git repo to keep track of\n    fetch   Update currently tracked repos\n    list    list out the currently tracked repos",
    )
}

fn text_or_new(o: &Option<String>) -> (r: String)
    ensures
        r@ == text_or_empty(opt_view(*o)),
{
    match o {
        Some(s) => s.clone(),
        None => String::new(),
    }
}

fn copy_option(o: &Option<String>) -> (r: Option<String>)
    ensures
        opt_view(r) == opt_view(*o),
{
    match o {
        Some(s) => Some(s.clone()),
        None => None,
    }
}

/// Applies the parsed command to the inventory and says what is left to do.
/// Only `add` changes the inventory, and only where its entry is new.
pub fn run(state: &State, config: &mut Config) -> (r: Action)
    ensures
        match state@.cmd {
            Some(Cmd::Add) => {
                let e = requested_entry(*state);
                &&& final(config)@.repositories == added(old(config)@.repositories, e)
                &&& final(config)@.source_dir == old(config)@.source_dir
                &&& final(config)@.location == old(config)@.location
                &&& if old(config)@.repositories.contains(e) {
                    r matches Action::Print(t) && t@ == tracked_message()
                } else {
                    r matches Action::SaveAndReport(t) && t@ == added_message()
                }
            },
            Some(Cmd::DumpConfig) => {
                &&& final(config)@ == old(config)@
                &&& r is DumpConfig
            },
            Some(Cmd::List) => {
                &&& final(config)@ == old(config)@
                &&& r matches Action::PrintLines(ls)
                &&& ls@.map_values(|l: String| l@) == table(old(config)@.repositories)
            },
            Some(Cmd::Fetch) => {
                &&& final(config)@ == old(config)@
                &&& r is Fetch
            },
            _ => {
                &&& final(config)@ == old(config)@
                &&& r matches Action::Print(t)
                &&& t@ == help_text()
            },
        },
{
    match state.cmd {
        Some(Cmd::Add) => {
            let repo = Repository::new(
                text_or_new(&state.name),
                text_or_new(&state.url),
                copy_option(&state.category),
            );
            if config.add(repo) {
                Action::SaveAndReport(String::from_str("Repository has been added"))
            } else {
                Action::Print(String::from_str("Repository is already being tracked"))
            }
        },
        Some(Cmd::DumpConfig) => Action::DumpConfig,
        Some(Cmd::List) => Action::PrintLines(config.list_lines()),
        Some(Cmd::Fetch) => Action::Fetch,
        _ => Action::Print(help_msg()),
    }
}

} // verus!
