//! The table that `list` prints.
use vstd::prelude::*;
use crate::config::{Config, RepoView, Repository, added};
use crate::text::{pad_right, padded};

verus! {

/// The longest name among the entries, 0 where there are none.
pub open spec fn name_width(s: Seq<RepoView>) -> nat
    decreases s.len(),
{
    if s.len() == 0 {
        0
    } else {
        let w = name_width(s.drop_last());
        if s.last().name.len() > w {
            s.last().name.len()
        } else {
            w
        }
    }
}

/// The longest URL among the entries, 0 where there are none.
pub open spec fn url_width(s: Seq<RepoView>) -> nat
    decreases s.len(),
{
    if s.len() == 0 {
        0
    } else {
        let w = url_width(s.drop_last());
        if s.last().url.len() > w {
            s.last().url.len()
        } else {
            w
        }
    }
}

/// The heading row for the given column widths.
pub open spec fn header_line(nw: nat, uw: nat) -> Seq<char> {
    padded("Name"@, nw) + " "@ + padded("URL"@, uw) + " Category"@
}

/// The category column of an entry: empty where it has none.
pub open spec fn category_text(c: Option<Seq<char>>) -> Seq<char> {
    match c {
        Some(x) => x,
        None => Seq::empty(),
    }
}

/// The row of one entry for the given column widths.
pub open spec fn entry_line(r: RepoView, nw: nat, uw: nat) -> Seq<char> {
    padded(r.name, nw) + " "@ + padded(r.url, uw) + " "@ + category_text(r.category)
}

/// The whole table: the heading, then one row per entry in order.
pub open spec fn table(s: Seq<RepoView>) -> Seq<Seq<char>> {
    seq![header_line(name_width(s), url_width(s))] + s.map_values(
        |r: RepoView| entry_line(r, name_width(s), url_width(s)),
    )
}

/// Listing follows the order of addition: once a new entry is added, the
/// table holds the heading, the rows of the earlier entries in their order,
/// and last the row of the new entry.
pub proof fn lemma_list_follows_additions(s: Seq<RepoView>, e: RepoView)
    requires
        !s.contains(e),
    ensures
        ({
            let t = added(s, e);
            let rows = table(t);
            &&& rows.len() == s.len() + 2
            &&& forall|i: int|
                0 <= i < s.len() ==> rows[i + 1] == entry_line(s[i], name_width(t), url_width(t))
            &&& rows[s.len() as int + 1] == entry_line(e, name_width(t), url_width(t))
        }),
{
    let t = added(s, e);
    assert(t == s.push(e));
    assert forall|i: int| 0 <= i < s.len() implies table(t)[i + 1] == entry_line(
        s[i],
        name_width(t),
        url_width(t),
    ) by {
        assert(t[i] == s[i]);
    }
    assert(t[s.len() as int] == e);
}

fn entry_row(r: &Repository, nw: usize, uw: usize) -> (line: String)
    ensures
        line@ == entry_line(r@, nw as nat, uw as nat),
{
    let mut line = pad_right(r.name.as_str(), nw);
    line.append(" ");
    let url = pad_right(r.url.as_str(), uw);
    line.append(url.as_str());
    line.append(" ");
    match &r.category {
        Some(c) => line.append(c.as_str()),
        None => {},
    }
    assert(line@ =~= entry_line(r@, nw as nat, uw as nat));
    line
}

impl Config {
    /// The lines that `list` prints: a heading, then each entry in the order
    /// it is tracked, with names and URLs padded to their column's width.
    pub fn list_lines(&self) -> (r: Vec<String>)
        ensures
            r@.map_values(|l: String| l@) == table(self@.repositories),
    {
        let ghost s = self@.repositories;
        let n = self.repositories.len();
        let mut nw: usize = 0;
        let mut uw: usize = 0;
        let mut i: usize = 0;
        while i < n
            invariant
                n == self.repositories@.len(),
                s == self@.repositories,
                i <= n,
                nw == name_width(s.subrange(0, i as int)),
                uw == url_width(s.subrange(0, i as int)),
            decreases n - i,
        {
            let r = &self.repositories[i];
            assert(s.subrange(0, i + 1).drop_last() =~= s.subrange(0, i as int));
            assert(s.subrange(0, i + 1).last() == r@);
            let ln = r.name.as_str().unicode_len();
            if ln > nw {
                nw = ln;
            }
            let lu = r.url.as_str().unicode_len();
            if lu > uw {
                uw = lu;
            }
            i += 1;
        }
        assert(s.subrange(0, n as int) =~= s);
        let mut lines: Vec<String> = Vec::new();
        let mut head = pad_right("Name", nw);
        head.append(" ");
        let url_head = pad_right("URL", uw);
        head.append(url_head.as_str());
        head.append(" Category");
        assert(head@ =~= header_line(nw as nat, uw as nat));
        lines.push(head);
        let mut k: usize = 0;
        while k < n
            invariant
                n == self.repositories@.len(),
                s == self@.repositories,
                k <= n,
                nw == name_width(s),
                uw == url_width(s),
                lines@.map_values(|l: String| l@) == table(s).subrange(0, k + 1),
            decreases n - k,
        {
            let line = entry_row(&self.repositories[k], nw, uw);
            assert(s[k as int] == self.repositories@[k as int]@);
            assert(table(s)[k + 1] == line@);
            let ghost prev = lines@.map_values(|l: String| l@);
            lines.push(line);
            assert(lines@.map_values(|l: String| l@) =~= prev.push(line@));
            assert(lines@.map_values(|l: String| l@) =~= table(s).subrange(0, k + 2));
            k += 1;
        }
        assert(table(s).subrange(0, n + 1) =~= table(s));
        lines
    }
}

} // verus!
