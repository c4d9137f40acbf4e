//! Answering plans from a snapshot of the tables.

use vstd::prelude::*;

use crate::filter;
use crate::filter::all_match;
use crate::order::{place, Place};
use crate::plan;
use crate::plan::{ListPlan, Selection};
use crate::tables::{Candidate, Database};
use crate::types::PersonId;
use crate::view::PostView;

verus! {

/// The person id that stands in for a viewer who is not logged in.
pub fn nobody() -> (id: PersonId)
    ensures
        id == plan::nobody(),
{
    PersonId(-1)
}

impl Selection {
    /// The person whose bookmarks the join takes in.
    pub fn bookmarks_of(&self) -> (person: PersonId)
        ensures
            person == self.bookmarks(),
    {
        match self.viewer {
            Some(person) => person,
            None => nobody(),
        }
    }

    /// Finds a row that is selected.
    pub fn first<'a>(&self, db: &'a Database) -> (row: Option<Candidate<'a>>)
        requires
            db.wf(),
        ensures
            row matches Some(c) ==> self.selects(db, c),
            row is None ==> forall|c: Candidate<'_>| !self.selects(db, c),
    {
        let bookmarks = self.bookmarks_of();
        let mut i: usize = 0;
        while i < db.post_aggregates.len()
            invariant
                i <= db.post_aggregates.len(),
                db.wf(),
                bookmarks == self.bookmarks(),
                forall|j: int, c: Candidate<'_>|
                    0 <= j < i && db.joined(bookmarks, #[trigger] db.post_aggregates@[j]) == Some(c)
                        ==> !(#[trigger] filter::all_hold(self.filters@, db, c)),
            decreases db.post_aggregates.len() - i,
        {
            if let Some(c) = db.join(bookmarks, &db.post_aggregates[i]) {
                if all_match(&self.filters, db, &c) {
                    assert(db.joined(bookmarks, db.post_aggregates@[i as int]) == Some(c));
                    return Some(c);
                }
            }
            i += 1;
        }
        None
    }
}

impl ListPlan {
    /// Tells whether the row lies within the bounds.
    pub fn is_within(&self, c: &Candidate<'_>) -> (inside: bool)
        ensures
            inside == self.layout().within(*c),
    {
        let after = match &self.after {
            Some(bound) => match place(&self.order, &bound.cursor, c.counts) {
                Place::Before => true,
                Place::Level => bound.or_equal,
                Place::After => false,
            },
            None => true,
        };
        let before = match &self.before {
            Some(bound) => match place(&self.order, c.counts, &bound.cursor) {
                Place::Before => true,
                Place::Level => bound.or_equal,
                Place::After => false,
            },
            None => true,
        };
        after && before
    }

    /// Tells whether `a` is counted before `b`.
    pub fn is_ahead(&self, a: &Candidate<'_>, b: &Candidate<'_>) -> (first: bool)
        ensures
            first == self.layout().ahead(*a, *b),
    {
        if self.saved_first {
            match (a.saved, b.saved) {
                (Some(sa), Some(sb)) => {
                    if sa.published != sb.published {
                        return sa.published > sb.published;
                    }
                },
                (Some(_), None) => {
                    return false;
                },
                (None, Some(_)) => {
                    return true;
                },
                (None, None) => {},
            }
        }
        if self.from_end {
            place(&self.order, b.counts, a.counts) == Place::Before
        } else {
            place(&self.order, a.counts, b.counts) == Place::Before
        }
    }

    /// Finds the place of a row among ordered rows for other posts.
    fn find_place(&self, rows: &Vec<Candidate<'_>>, c: &Candidate<'_>) -> (p: usize)
        requires
            self.wf(),
            self.layout().in_order(rows@),
            forall|i: int|
                0 <= i < rows@.len() ==> (#[trigger] rows@[i]).counts.post_id != c.counts.post_id,
        ensures
            p <= rows@.len(),
            forall|i: int| 0 <= i < p ==> self.layout().ahead(#[trigger] rows@[i], *c),
            forall|i: int| p <= i < rows@.len() ==> self.layout().ahead(*c, #[trigger] rows@[i]),
    {
        let mut p: usize = rows.len();
        while p > 0
            invariant
                p <= rows@.len(),
                self.wf(),
                self.layout().in_order(rows@),
                forall|i: int|
                    0 <= i < rows@.len() ==> (#[trigger] rows@[i]).counts.post_id
                        != c.counts.post_id,
                forall|i: int|
                    p <= i < rows@.len() ==> self.layout().ahead(*c, #[trigger] rows@[i]),
            ensures
                p <= rows@.len(),
                forall|i: int| 0 <= i < p ==> self.layout().ahead(#[trigger] rows@[i], *c),
                forall|i: int|
                    p <= i < rows@.len() ==> self.layout().ahead(*c, #[trigger] rows@[i]),
            decreases p,
        {
            if self.is_ahead(&rows[p - 1], c) {
                assert forall|i: int| 0 <= i < p implies self.layout().ahead(
                    #[trigger] rows@[i],
                    *c,
                ) by {
                    if i < p - 1 {
                        assert(self.layout().ahead(rows@[i], rows@[p - 1]));
                        self.layout().lemma_ahead_transitive(rows@[i], rows@[p - 1], *c);
                    }
                }
                break;
            }
            proof {
                self.layout().lemma_ahead_total(rows@[p - 1], *c);
            }
            p -= 1;
        }
        p
    }

    /// Ranks the rows that answer the plan.
    pub fn rank<'a>(&self, db: &'a Database) -> (rows: Vec<Candidate<'a>>)
        requires
            self.wf(),
            db.wf(),
        ensures
            self.layout().is_ranking(self.selection.rule(db), rows@),
            rows@ == self.ranking(db),
    {
        let bookmarks = self.selection.bookmarks_of();
        let ghost rule = self.selection.rule(db);
        let mut rows: Vec<Candidate<'a>> = Vec::new();
        let mut i: usize = 0;
        while i < db.post_aggregates.len()
            invariant
                i <= db.post_aggregates.len(),
                self.wf(),
                db.wf(),
                bookmarks == self.selection.bookmarks(),
                rule == self.selection.rule(db),
                self.layout().ranks_first(db, bookmarks, rule, i as int, rows@),
            decreases db.post_aggregates.len() - i,
        {
            let ghost before = rows@;
            let counts = &db.post_aggregates[i];
            if let Some(c) = db.join(bookmarks, counts) {
                assert(db.has_candidate(bookmarks, c)) by {
                    assert(db.joined(bookmarks, db.post_aggregates@[i as int]) == Some(c));
                }
                if all_match(&self.selection.filters, db, &c) && self.is_within(&c) {
                    proof {
                        self.layout().lemma_fresh(db, bookmarks, rule, i as int, rows@, c);
                    }
                    let p: usize = self.find_place(&rows, &c);
                    proof {
                        self.layout().lemma_insert(rows@, p as int, c);
                    }
                    rows.insert(p, c);
                }
            }
            proof {
                self.layout().lemma_ranks_next(db, bookmarks, rule, i as int, before, rows@);
            }
            i += 1;
        }
        proof {
            self.layout().lemma_ranks_all(db, bookmarks, rule, rows@);
            self.layout().lemma_ranking(db, bookmarks, rule);
            self.layout().lemma_ranking_unique(rule, rows@, self.ranking(db));
        }
        rows
    }

    /// Takes the wanted part of the ranking, in listing order.
    pub fn rows<'a>(&self, db: &'a Database) -> (rows: Vec<Candidate<'a>>)
        requires
            self.wf(),
            db.wf(),
        ensures
            rows@ == self.page(db),
    {
        let ranked = self.rank(db);
        let len: usize = ranked.len();
        let start: usize = if self.offset < len as u64 { self.offset as usize } else { len };
        let room: usize = len - start;
        let count: usize = if self.limit < room as u64 { self.limit as usize } else { room };
        let ghost wanted = plan::window(self.ranking(db), self.offset as int, self.limit as int);
        assert(wanted =~= ranked@.subrange(start as int, start + count));
        let mut rows: Vec<Candidate<'a>> = Vec::new();
        let mut i: usize = 0;
        while i < count
            invariant
                i <= count,
                start + count <= len,
                len == ranked@.len(),
                wanted == ranked@.subrange(start as int, start + count),
                rows@.len() == i,
                forall|j: int|
                    0 <= j < i ==> #[trigger] rows@[j] == (if self.from_end {
                        wanted[count - 1 - j]
                    } else {
                        wanted[j]
                    }),
            decreases count - i,
        {
            let k: usize = if self.from_end { start + (count - 1 - i) } else { start + i };
            rows.push(ranked[k]);
            i += 1;
        }
        assert(rows@ =~= self.page(db));
        rows
    }

    /// Shows the rows that the plan yields.
    pub fn run<'a>(&self, db: &'a Database) -> (views: Vec<PostView<'a>>)
        requires
            self.wf(),
            db.wf(),
        ensures
            db.shows_all(self.selection.viewer, self.page(db), views@),
    {
        let rows = self.rows(db);
        let mut views: Vec<PostView<'a>> = Vec::new();
        let mut i: usize = 0;
        while i < rows.len()
            invariant
                i <= rows@.len(),
                self.wf(),
                db.wf(),
                rows@ == self.page(db),
                db.shows_all(self.selection.viewer, rows@.subrange(0, i as int), views@),
            decreases rows.len() - i,
        {
            proof {
                self.lemma_page_rows(db, i as int);
            }
            let view = db.view(self.selection.viewer, &rows[i]);
            let ghost shown = rows@.subrange(0, i as int);
            let ghost more = rows@.subrange(0, i + 1);
            assert(forall|j: int| 0 <= j < i ==> #[trigger] more[j] == shown[j]);
            views.push(view);
            i += 1;
        }
        assert(rows@.subrange(0, rows@.len() as int) =~= rows@);
        views
    }

    /// The rows that a plan yields answer it, and their counts are in the tables.
    pub proof fn lemma_page_rows(&self, db: &Database, i: int)
        requires
            self.wf(),
            db.wf(),
            0 <= i < self.page(db).len(),
        ensures
            self.selection.selects(db, self.page(db)[i]),
            self.layout().within(self.page(db)[i]),
            db.post_aggregates@.contains(*self.page(db)[i].counts),
    {
        let ranked = self.ranking(db);
        self.layout().lemma_ranking(db, self.selection.bookmarks(), self.selection.rule(db));
        let c = self.page(db)[i];
        assert(ranked.contains(c));
        let k = choose|k: int|
            0 <= k < db.post_aggregates@.len() && db.joined(
                self.selection.bookmarks(),
                #[trigger] db.post_aggregates@[k],
            ) == Some(c);
        assert(db.post_aggregates@[k] == *c.counts);
    }
}

} // verus!
