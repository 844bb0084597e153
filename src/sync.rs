//! Decisions of the sync engine: where each entry lives on disk and how the
//! version-control client is invoked for it.
use vstd::prelude::*;
use crate::config::{Config, RepoView};

verus! {

/// The directory that holds an entry: the root, or the category under it.
pub open spec fn category_dir(source: Seq<char>, category: Option<Seq<char>>) -> Seq<char> {
    match category {
        Some(c) => source + "/"@ + c + "/"@,
        None => source,
    }
}

/// The working tree of an entry.
pub open spec fn repo_dir(source: Seq<char>, r: RepoView) -> Seq<char> {
    category_dir(source, r.category) + "/"@ + r.name
}

/// Client arguments that update the working tree at `dir` from all remotes.
pub open spec fn fetch_args(dir: Seq<char>) -> Seq<Seq<char>> {
    seq!["-C"@, dir, "fetch"@, "--all"@]
}

/// Client arguments that clone `url` into `name` under `dir`.
pub open spec fn clone_args(dir: Seq<char>, url: Seq<char>, name: Seq<char>) -> Seq<Seq<char>> {
    seq!["-C"@, dir, "clone"@, url, name]
}

/// Whether an entry is updated in place or cloned.
#[derive(Debug, Clone, Copy, PartialEq, Eq, Structural)]
pub enum SyncKind {
    Fetch,
    Clone,
}

/// The work for one entry.
#[derive(Debug)]
pub struct SyncStep {
    pub kind: SyncKind,
    /// The entry's name, for the operator.
    pub name: String,
    /// The directory to create before a clone.
    pub category_dir: String,
    /// The entry's working tree.
    pub repo_dir: String,
    /// The arguments for the client.
    pub args: Vec<String>,
}

/// How the work for one entry ended.
#[derive(Debug, Clone, Copy, PartialEq, Eq, Structural)]
pub enum EntryOutcome {
    Done,
    DirectoryFailed,
    ClientFailed,
}

/// Progress through the inventory's entries, in order.
#[derive(Debug)]
pub struct SyncRun {
    pub next: usize,
}

/// Whether `step` is the work for entry `r` under `source`: a fetch in its
/// working tree where that is `present`, else a clone into its category
/// directory.
pub open spec fn step_for(step: SyncStep, source: Seq<char>, r: RepoView, present: bool) -> bool {
    &&& step.kind == (if present {
        SyncKind::Fetch
    } else {
        SyncKind::Clone
    })
    &&& step.name@ == r.name
    &&& step.category_dir@ == category_dir(source, r.category)
    &&& step.repo_dir@ == repo_dir(source, r)
    &&& step.args@.map_values(|a: String| a@) == (if present {
        fetch_args(repo_dir(source, r))
    } else {
        clone_args(category_dir(source, r.category), r.url, r.name)
    })
}

impl Config {
    fn category_dir_of(&self, i: usize) -> (r: String)
        requires
            i < self@.repositories.len(),
        ensures
            r@ == category_dir(self@.source_dir, self@.repositories[i as int].category),
    {
        let r = &self.repositories[i];
        assert(self@.repositories[i as int] == r@);
        let mut d = self.source_dir.clone();
        match &r.category {
            Some(c) => {
                d.append("/");
                d.append(c.as_str());
                d.append("/");
            },
            None => {},
        }
        d
    }

    /// The working tree of entry `i`.
    pub fn repo_dir(&self, i: usize) -> (r: String)
        requires
            i < self@.repositories.len(),
        ensures
            r@ == repo_dir(self@.source_dir, self@.repositories[i as int]),
    {
        let mut d = self.category_dir_of(i);
        d.append("/");
        d.append(self.repositories[i].name.as_str());
        d
    }

    /// The work for entry `i`: a fetch in its working tree where that is
    /// `present`, else a clone into its category directory.
    pub fn sync_step(&self, i: usize, present: bool) -> (r: SyncStep)
        requires
            i < self@.repositories.len(),
        ensures
            step_for(r, self@.source_dir, self@.repositories[i as int], present),
    {
        let entry = &self.repositories[i];
        assert(self@.repositories[i as int] == entry@);
        let cat_dir = self.category_dir_of(i);
        let dir = self.repo_dir(i);
        let mut args: Vec<String> = Vec::new();
        args.push(String::from_str("-C"));
        let kind;
        if present {
            args.push(dir.clone());
            args.push(String::from_str("fetch"));
            args.push(String::from_str("--all"));
            kind = SyncKind::Fetch;
            assert(args@.map_values(|a: String| a@) =~= fetch_args(dir@));
        } else {
            args.push(cat_dir.clone());
            args.push(String::from_str("clone"));
            args.push(entry.url.clone());
            args.push(entry.name.clone());
            kind = SyncKind::Clone;
            assert(args@.map_values(|a: String| a@) =~= clone_args(cat_dir@, entry.url@, entry.name@));
        }
        SyncStep { kind, name: entry.name.clone(), category_dir: cat_dir, repo_dir: dir, args }
    }
}

impl SyncRun {
    /// A run that starts at the first entry.
    pub fn new() -> (r: SyncRun)
        ensures
            r.next == 0,
    {
        SyncRun { next: 0 }
    }

    /// The work for the next entry, or `None` once every entry has had its turn.
    pub fn current(&self, config: &Config, present: bool) -> (r: Option<SyncStep>)
        ensures
            (r is None) == (self.next >= config@.repositories.len()),
            r matches Some(step) ==> step_for(
                step,
                config@.source_dir,
                config@.repositories[self.next as int],
                present,
            ),
    {
        if self.next < config.repositories.len() {
            Some(config.sync_step(self.next, present))
        } else {
            None
        }
    }

    /// Moves on to the following entry, however the current one ended: a
    /// failure on one entry never stops the others.
    pub fn record(&mut self, config: &Config, outcome: EntryOutcome)
        requires
            old(self).next < config@.repositories.len(),
        ensures
            final(self).next == old(self).next + 1,
    {
        let n = config.repositories.len();
        assert(self.next < n);
        self.next = self.next + 1;
    }
}

} // verus!
