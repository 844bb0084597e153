//! The command-line grammar: flags, the command verb and its operands.
use vstd::prelude::*;
use crate::config::opt_view;
use crate::text::{begins_with, has_prefix, holds_char, same_text, suffix_from};

verus! {

/// The main command to run.
#[derive(Debug, Clone, Copy, PartialEq, Eq, Structural)]
pub enum Cmd {
    Add,
    Help,
    Fetch,
    List,
    DumpConfig,
}

/// An operand that the command line lacks.
#[derive(Debug, Clone, Copy, PartialEq, Eq, Structural)]
pub enum ParseIssue {
    /// `--config` came last, without a path.
    MissingConfigPath,
    /// `add` came without a name.
    MissingName,
    /// `add` came with a name but without a URL.
    MissingUrl,
}

/// What the parsed arguments hold.
pub struct ArgsView {
    pub cmd: Option<Cmd>,
    pub url: Option<Seq<char>>,
    pub name: Option<Seq<char>>,
    pub category: Option<Seq<char>>,
    pub config: Seq<char>,
    pub issues: Seq<ParseIssue>,
}

/// The parsed command line.
#[derive(Debug)]
pub struct State {
    pub cmd: Option<Cmd>,
    pub url: Option<String>,
    pub name: Option<String>,
    pub category: Option<String>,
    /// Path of the inventory file.
    pub config: String,
    /// Missing operands, in the order they were met.
    pub issues: Vec<ParseIssue>,
}

impl View for State {
    type V = ArgsView;

    open spec fn view(&self) -> ArgsView {
        ArgsView {
            cmd: self.cmd,
            url: opt_view(self.url),
            name: opt_view(self.name),
            category: opt_view(self.category),
            config: self.config@,
            issues: self.issues@,
        }
    }
}

/// The views of a list of strings.
pub open spec fn texts(v: Seq<String>) -> Seq<Seq<char>> {
    v.map_values(|s: String| s@)
}

/// The token at position `j`, if there is one.
pub open spec fn token_at(t: Seq<Seq<char>>, j: int) -> Option<Seq<char>> {
    if 0 <= j < t.len() {
        Some(t[j])
    } else {
        None
    }
}

/// The default inventory path under a home directory.
pub open spec fn default_config_path(home: Seq<char>) -> Seq<char> {
    home + "/.config/shepherd/config.toml"@
}

/// The state before any token is read.
pub open spec fn initial_args(home: Seq<char>) -> ArgsView {
    ArgsView {
        cmd: None,
        url: None,
        name: None,
        category: None,
        config: default_config_path(home),
        issues: Seq::empty(),
    }
}

pub open spec fn with_cmd(st: ArgsView, c: Cmd) -> ArgsView {
    ArgsView {
        cmd: Some(c),
        url: st.url,
        name: st.name,
        category: st.category,
        config: st.config,
        issues: st.issues,
    }
}

/// Whether `x` asks for a category right after `add`.
pub open spec fn is_category_flag(x: Seq<char>) -> bool {
    x == "--category"@ || x == "-c"@
}

/// Reads `add [--category|-c <category>] <name> <url>` starting at the `add`
/// token at `i`: the next position and the new state.
pub open spec fn add_step(t: Seq<Seq<char>>, i: int, st: ArgsView) -> (int, ArgsView) {
    let flagged = token_at(t, i + 1) matches Some(f) && is_category_flag(f);
    let category = if flagged {
        token_at(t, i + 2)
    } else {
        st.category
    };
    let name_at = if flagged {
        i + 3
    } else {
        i + 1
    };
    match token_at(t, name_at) {
        None => (
            t.len() as int,
            ArgsView {
                cmd: st.cmd,
                url: st.url,
                name: st.name,
                category,
                config: st.config,
                issues: st.issues.push(ParseIssue::MissingName),
            },
        ),
        Some(nm) => match token_at(t, name_at + 1) {
            None => (
                t.len() as int,
                ArgsView {
                    cmd: st.cmd,
                    url: st.url,
                    name: Some(nm),
                    category,
                    config: st.config,
                    issues: st.issues.push(ParseIssue::MissingUrl),
                },
            ),
            Some(u) => (
                name_at + 2,
                ArgsView {
                    cmd: Some(Cmd::Add),
                    url: Some(u),
                    name: Some(nm),
                    category,
                    config: st.config,
                    issues: st.issues,
                },
            ),
        },
    }
}

/// Reads the token at `i` (and any operands it takes): the next position and
/// the new state. Flags act whenever they appear; a verb only while no
/// command has been chosen.
pub open spec fn parse_step(t: Seq<Seq<char>>, i: int, st: ArgsView) -> (int, ArgsView) {
    let x = t[i];
    if begins_with(x, "--"@) {
        let opt = x.subrange(2, x.len() as int);
        if opt == "help"@ {
            (i + 1, with_cmd(st, Cmd::Help))
        } else if opt == "dump-config"@ {
            (i + 1, with_cmd(st, Cmd::DumpConfig))
        } else if opt == "config"@ {
            match token_at(t, i + 1) {
                Some(p) => (
                    i + 2,
                    ArgsView {
                        cmd: st.cmd,
                        url: st.url,
                        name: st.name,
                        category: st.category,
                        config: p,
                        issues: st.issues,
                    },
                ),
                None => (
                    i + 1,
                    ArgsView {
                        cmd: st.cmd,
                        url: st.url,
                        name: st.name,
                        category: st.category,
                        config: st.config,
                        issues: st.issues.push(ParseIssue::MissingConfigPath),
                    },
                ),
            }
        } else {
            (i + 1, st)
        }
    } else if begins_with(x, "-"@) {
        if x.subrange(1, x.len() as int).contains('h') {
            (i + 1, with_cmd(st, Cmd::Help))
        } else {
            (i + 1, st)
        }
    } else if st.cmd is Some {
        (i + 1, st)
    } else if x == "add"@ {
        add_step(t, i, st)
    } else if x == "fetch"@ {
        (i + 1, with_cmd(st, Cmd::Fetch))
    } else if x == "list"@ {
        (i + 1, with_cmd(st, Cmd::List))
    } else if x == "help"@ {
        (i + 1, with_cmd(st, Cmd::Help))
    } else {
        (i + 1, st)
    }
}

/// The state after reading the tokens from position `i` on.
pub open spec fn parse_from(t: Seq<Seq<char>>, i: int, st: ArgsView) -> ArgsView
    decreases t.len() - i,
{
    if i < 0 || i >= t.len() {
        st
    } else {
        let (j, next) = parse_step(t, i, st);
        if j <= i {
            st
        } else {
            parse_from(t, j, next)
        }
    }
}

/// The parsed command line: Help where no command was chosen.
pub open spec fn parse_args(t: Seq<Seq<char>>, home: Seq<char>) -> ArgsView {
    let st = parse_from(t, 0, initial_args(home));
    if st.cmd is None {
        with_cmd(st, Cmd::Help)
    } else {
        st
    }
}

impl State {
    /// Parses the command-line tokens (without the program name), left to
    /// right. The inventory path defaults to one under `home`.
    pub fn new(args: Vec<String>, home: &str) -> (r: State)
        ensures
            r@ == parse_args(texts(args@), home@),
            r.cmd is Some,
    {
        let mut config = String::from_str(home);
        config.append("/.config/shepherd/config.toml");
        let mut state = State {
            cmd: None,
            url: None,
            name: None,
            category: None,
            config,
            issues: Vec::new(),
        };
        let n = args.len();
        let mut i: usize = 0;
        while i < n
            invariant
                n == args@.len(),
                i <= n,
                parse_from(texts(args@), i as int, state@) == parse_from(
                    texts(args@),
                    0,
                    initial_args(home@),
                ),
            decreases n - i,
        {
            i = state.read_token(&args, i);
        }
        if state.cmd.is_none() {
            state.cmd = Some(Cmd::Help);
        }
        state
    }

    /// Reads the token at `i`; returns the position of the next one.
    fn read_token(&mut self, args: &Vec<String>, i: usize) -> (j: usize)
        requires
            i < args@.len(),
        ensures
            (j as int, final(self)@) == parse_step(texts(args@), i as int, old(self)@),
            i < j <= args@.len(),
    {
        let ghost t = texts(args@);
        let n = args.len();
        let x = args[i].as_str();
        assert(t[i as int] == x@);
        proof {
            reveal_strlit("--");
            reveal_strlit("-");
        }
        if has_prefix(x, "--") {
            let opt = suffix_from(x, 2);
            if same_text(opt.as_str(), "help") {
                self.cmd = Some(Cmd::Help);
            } else if same_text(opt.as_str(), "dump-config") {
                self.cmd = Some(Cmd::DumpConfig);
            } else if same_text(opt.as_str(), "config") {
                if i + 1 < n {
                    self.config = args[i + 1].clone();
                    return i + 2;
                }
                self.issues.push(ParseIssue::MissingConfigPath);
            }
            i + 1
        } else if has_prefix(x, "-") {
            let flags = suffix_from(x, 1);
            if holds_char(flags.as_str(), 'h') {
                self.cmd = Some(Cmd::Help);
            }
            i + 1
        } else if self.cmd.is_some() {
            i + 1
        } else if same_text(x, "add") {
            self.read_add(args, i)
        } else if same_text(x, "fetch") {
            self.cmd = Some(Cmd::Fetch);
            i + 1
        } else if same_text(x, "list") {
            self.cmd = Some(Cmd::List);
            i + 1
        } else if same_text(x, "help") {
            self.cmd = Some(Cmd::Help);
            i + 1
        } else {
            i + 1
        }
    }

    /// Reads the operands of `add`, whose token stands at `i`.
    fn read_add(&mut self, args: &Vec<String>, i: usize) -> (j: usize)
        requires
            i < args@.len(),
        ensures
            (j as int, final(self)@) == add_step(texts(args@), i as int, old(self)@),
            i < j <= args@.len(),
    {
        let ghost t = texts(args@);
        let n = args.len();
        let flagged = i + 1 < n && (same_text(args[i + 1].as_str(), "--category") || same_text(
            args[i + 1].as_str(),
            "-c",
        ));
        let name_at: usize;
        if flagged {
            if i + 2 < n {
                self.category = Some(args[i + 2].clone());
                name_at = i + 3;
            } else {
                self.category = None;
                self.issues.push(ParseIssue::MissingName);
                return n;
            }
        } else {
            name_at = i + 1;
        }
        if name_at >= n {
            self.issues.push(ParseIssue::MissingName);
            return n;
        }
        self.name = Some(args[name_at].clone());
        if name_at + 1 >= n {
            self.issues.push(ParseIssue::MissingUrl);
            return n;
        }
        self.url = Some(args[name_at + 1].clone());
        self.cmd = Some(Cmd::Add);
        name_at + 2
    }
}

} // verus!
