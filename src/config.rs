//! The inventory: where sources live and which repositories are tracked.
use vstd::prelude::*;
use crate::text::same_text;

verus! {

/// What a repository entry holds.
pub struct RepoView {
    pub name: Seq<char>,
    pub url: Seq<char>,
    pub category: Option<Seq<char>>,
}

/// The view of an optional string.
pub open spec fn opt_view(o: Option<String>) -> Option<Seq<char>> {
    match o {
        Some(s) => Some(s@),
        None => None,
    }
}

/// A single tracked repository.
#[derive(Debug, Clone)]
pub struct Repository {
    pub name: String,
    pub url: String,
    pub category: Option<String>,
}

impl View for Repository {
    type V = RepoView;

    open spec fn view(&self) -> RepoView {
        RepoView { name: self.name@, url: self.url@, category: opt_view(self.category) }
    }
}

fn same_category(a: &Option<String>, b: &Option<String>) -> (r: bool)
    ensures
        r == (opt_view(*a) == opt_view(*b)),
{
    match (a, b) {
        (Some(x), Some(y)) => same_text(x.as_str(), y.as_str()),
        (None, None) => true,
        _ => false,
    }
}

impl Repository {
    /// An entry with the given name, clone URL and optional category.
    pub fn new(name: String, url: String, category: Option<String>) -> (r: Repository)
        ensures
            r.name@ == name@,
            r.url@ == url@,
            opt_view(r.category) == opt_view(category),
    {
        Repository { name, url, category }
    }

    /// Two entries are the same when name, URL and category all agree.
    pub fn same_as(&self, other: &Repository) -> (r: bool)
        ensures
            r == (self@ == other@),
    {
        same_text(self.name.as_str(), other.name.as_str()) && same_text(
            self.url.as_str(),
            other.url.as_str(),
        ) && same_category(&self.category, &other.category)
    }
}

impl PartialEq for Repository {
    fn eq(&self, other: &Repository) -> (r: bool) {
        self.same_as(other)
    }
}

impl vstd::std_specs::cmp::PartialEqSpecImpl for Repository {
    open spec fn obeys_eq_spec() -> bool {
        true
    }

    open spec fn eq_spec(&self, other: &Repository) -> bool {
        self@ == other@
    }
}

/// Errors of the inventory and of the program around it.
#[derive(Debug, Clone, PartialEq, Eq)]
pub enum ConfigError {
    /// A required environment variable is not set.
    EnvMissing(String),
    /// Reading, writing or creating a filesystem object failed.
    Io(String),
    /// The stored inventory is not valid in the expected format.
    Parse(String),
    /// The inventory could not be turned into text.
    Serialize(String),
    /// An operation was called before the state it needs was set up.
    State(String),
}

/// What an inventory holds.
pub struct ConfigView {
    pub location: Option<Seq<char>>,
    pub source_dir: Seq<char>,
    pub repositories: Seq<RepoView>,
}

/// The inventory of tracked repositories.
#[derive(Debug)]
pub struct Config {
    /// The file the inventory was loaded from; never stored in it.
    pub config_location: Option<String>,
    pub source_dir: String,
    pub repositories: Vec<Repository>,
}

impl View for Config {
    type V = ConfigView;

    open spec fn view(&self) -> ConfigView {
        ConfigView {
            location: opt_view(self.config_location),
            source_dir: self.source_dir@,
            repositories: self.repositories@.map_values(|r: Repository| r@),
        }
    }
}

/// The default root of the working trees under a home directory.
pub open spec fn default_source_dir(home: Seq<char>) -> Seq<char> {
    home + "/sources"@
}

/// The entries after adding `e`: appended unless an equal entry is there.
pub open spec fn added(s: Seq<RepoView>, e: RepoView) -> Seq<RepoView> {
    if s.contains(e) {
        s
    } else {
        s.push(e)
    }
}

/// Whether an entry equals `e`.
pub open spec fn equal_to(e: RepoView) -> spec_fn(RepoView) -> bool {
    |x: RepoView| x == e
}

/// How many entries equal `e`.
pub open spec fn occurrences(s: Seq<RepoView>, e: RepoView) -> nat {
    s.filter(equal_to(e)).len()
}

proof fn lemma_occurrences_contains(s: Seq<RepoView>, e: RepoView)
    ensures
        (occurrences(s, e) > 0) == s.contains(e),
{
    let f = equal_to(e);
    if occurrences(s, e) > 0 {
        s.lemma_filter_pred(f, 0);
        let x = s.filter(f)[0];
        assert(s.filter(f).contains(x));
        s.lemma_filter_contains_rev(f, x);
    }
    if s.contains(e) {
        let i = choose|i: int| 0 <= i < s.len() && s[i] == e;
        s.lemma_filter_contains(f, i);
    }
}

/// Adding an entry twice does what adding it once does: the second add finds
/// it tracked and changes nothing, and an entry tracked at most once before is
/// then tracked exactly once.
pub proof fn lemma_add_twice(s: Seq<RepoView>, e: RepoView)
    requires
        occurrences(s, e) <= 1,
    ensures
        added(s, e).contains(e),
        added(added(s, e), e) == added(s, e),
        occurrences(added(added(s, e), e), e) == 1,
{
    let f = equal_to(e);
    lemma_occurrences_contains(s, e);
    if !s.contains(e) {
        let t = s.push(e);
        assert(t[s.len() as int] == e);
        assert(t.drop_last() =~= s);
        reveal_with_fuel(Seq::filter, 1);
        assert(t.filter(f) == s.filter(f).push(e));
    }
}

/// The message of the error for a save before any load.
pub open spec fn unloaded_message() -> Seq<char> {
    "configuration location is not set; load it first"@
}

impl Config {
    /// A fresh inventory with sources under `home`, no entries and no location.
    pub fn new(home: &str) -> (r: Config)
        ensures
            r@.source_dir == default_source_dir(home@),
            r@.repositories.len() == 0,
            r@.location is None,
    {
        let mut source_dir = String::from_str(home);
        source_dir.append("/sources");
        Config { config_location: None, source_dir, repositories: Vec::new() }
    }

    /// An inventory with the given fields and no location, as read from storage.
    pub fn from_parts(source_dir: String, repositories: Vec<Repository>) -> (r: Config)
        ensures
            r@.source_dir == source_dir@,
            r@.repositories == repositories@.map_values(|e: Repository| e@),
            r@.location is None,
    {
        Config { config_location: None, source_dir, repositories }
    }

    /// The file this inventory was loaded from, if any.
    pub fn location(&self) -> (r: Option<String>)
        ensures
            opt_view(r) == self@.location,
    {
        self.config_location.clone()
    }

    /// Records that this inventory was loaded from `filename`. Where the file
    /// held an inventory (`stored`), its stored fields replace this one's;
    /// otherwise this inventory keeps its fields (it was just written there).
    pub fn read_config(&mut self, filename: &str, stored: Option<Config>)
        ensures
            final(self)@.location == Some(filename@),
            match stored {
                Some(c) => final(self)@.source_dir == c@.source_dir && final(self)@.repositories
                    == c@.repositories,
                None => final(self)@.source_dir == old(self)@.source_dir && final(self)@.repositories
                    == old(self)@.repositories,
            },
    {
        match stored {
            Some(c) => {
                self.source_dir = c.source_dir;
                self.repositories = c.repositories;
            },
            None => {},
        }
        self.config_location = Some(String::from_str(filename));
    }

    /// The file a save writes to: the one loaded from, or an error when none was.
    pub fn save_target(&self) -> (r: Result<String, ConfigError>)
        ensures
            match r {
                Ok(p) => self@.location == Some(p@),
                Err(e) => {
                    &&& self@.location is None
                    &&& e matches ConfigError::State(m)
                    &&& m@ == unloaded_message()
                },
            },
    {
        match &self.config_location {
            Some(p) => Ok(p.clone()),
            None => Err(
                ConfigError::State(
                    String::from_str("configuration location is not set; load it first"),
                ),
            ),
        }
    }

    /// Whether an entry equal to `repo` is tracked.
    pub fn contains(&self, repo: &Repository) -> (r: bool)
        ensures
            r == self@.repositories.contains(repo@),
    {
        let n = self.repositories.len();
        let mut i: usize = 0;
        while i < n
            invariant
                n == self.repositories@.len(),
                i <= n,
                forall|j: int| 0 <= j < i ==> self.repositories@[j]@ != repo@,
            decreases n - i,
        {
            if self.repositories[i].same_as(repo) {
                assert(self@.repositories[i as int] == repo@);
                return true;
            }
            i += 1;
        }
        assert(!self@.repositories.contains(repo@)) by {
            if self@.repositories.contains(repo@) {
                let j = choose|j: int|
                    0 <= j < self@.repositories.len() && self@.repositories[j] == repo@;
                assert(self.repositories@[j]@ == repo@);
            }
        }
        false
    }

    /// Appends `repo` unless an equal entry is tracked; returns whether it was
    /// appended. Nothing is written to storage.
    pub fn add(&mut self, repo: Repository) -> (r: bool)
        ensures
            r == !old(self)@.repositories.contains(repo@),
            final(self)@.repositories == added(old(self)@.repositories, repo@),
            final(self)@.source_dir == old(self)@.source_dir,
            final(self)@.location == old(self)@.location,
    {
        if self.contains(&repo) {
            false
        } else {
            let ghost before = self.repositories@;
            self.repositories.push(repo);
            assert(self.repositories@.map_values(|e: Repository| e@) =~= before.map_values(
                |e: Repository| e@,
            ).push(self.repositories@.last()@));
            true
        }
    }
}

} // verus!
