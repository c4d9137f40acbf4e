//! Plans: what a query asks of the database, and which rows answer it.

use vstd::prelude::*;

use crate::filter;
use crate::filter::Filter;
use crate::order;
use crate::order::SortKey;
use crate::tables::{Candidate, Database, PostAggregates};
use crate::types::{PersonId, Timestamp};

verus! {

/// The person id that stands in for a viewer who is not logged in.
pub open spec fn nobody() -> PersonId {
    PersonId((-1) as i32)
}

/// The rows to look at: the join for a viewer, cut down by conditions.
#[derive(PartialEq, Eq, Debug)]
pub struct Selection {
    pub viewer: Option<PersonId>,
    pub filters: Vec<Filter>,
}

impl Selection {
    /// The person whose bookmarks the join takes in.
    pub open spec fn bookmarks(&self) -> PersonId {
        match self.viewer {
            Some(person) => person,
            None => nobody(),
        }
    }

    /// `c` is a row of the join and meets the conditions.
    pub open spec fn selects(&self, db: &Database, c: Candidate<'_>) -> bool {
        &&& db.has_candidate(self.bookmarks(), c)
        &&& filter::all_hold(self.filters@, db, c)
    }

    /// The rows that are selected.
    pub open spec fn rule<'a>(&self, db: &Database) -> spec_fn(Candidate<'a>) -> bool {
        |c: Candidate<'a>| self.selects(db, c)
    }
}

/// A place in the ordering where a listing starts or ends.
#[derive(Clone, Copy, PartialEq, Eq, Structural, Debug)]
pub struct Bound {
    pub cursor: PostAggregates,
    /// Whether the post at the bound belongs to the listing.
    pub or_equal: bool,
}

/// A listing: a selection, an ordering, and the part of it that is wanted.
#[derive(PartialEq, Eq, Debug)]
pub struct ListPlan {
    pub selection: Selection,
    /// Whether the time at which a post was saved takes precedence over the sort keys.
    pub saved_first: bool,
    pub order: Vec<SortKey>,
    /// Only what comes after this bound is wanted.
    pub after: Option<Bound>,
    /// Only what comes before this bound is wanted.
    pub before: Option<Bound>,
    /// Whether the limit and the offset count from the end.
    pub from_end: bool,
    pub limit: u64,
    pub offset: u64,
    /// Whether the listing only serves to bound another one.
    pub for_upper_bound: bool,
}

/// How a listing is laid out: everything about a plan but the choice of rows.
pub struct Layout {
    pub saved_first: bool,
    pub order: Seq<SortKey>,
    pub after: Option<Bound>,
    pub before: Option<Bound>,
    pub from_end: bool,
    pub limit: nat,
    pub offset: nat,
}

/// The place of a bookmark in the ordering. A post without one goes to the front.
pub open spec fn saved_rank(c: Candidate<'_>) -> int {
    match c.saved {
        Some(saved) => saved.published as int,
        None => Timestamp::MAX + 1,
    }
}

/// The part of `s` that remains when `offset` items are skipped and at most `limit` are taken.
pub open spec fn window<T>(s: Seq<T>, offset: int, limit: int) -> Seq<T> {
    let start = if offset < s.len() { offset } else { s.len() as int };
    let end = if offset + limit < s.len() { offset + limit } else { s.len() as int };
    s.subrange(start, end)
}

impl Layout {
    /// The row lies within the bounds.
    pub open spec fn within(self, c: Candidate<'_>) -> bool {
        &&& self.after matches Some(bound) ==> {
            ||| order::beats(self.order, bound.cursor, *c.counts)
            ||| bound.or_equal && order::ties(self.order, bound.cursor, *c.counts)
        }
        &&& self.before matches Some(bound) ==> {
            ||| order::beats(self.order, *c.counts, bound.cursor)
            ||| bound.or_equal && order::ties(self.order, *c.counts, bound.cursor)
        }
    }

    /// `a` is counted before `b` when the limit and the offset are applied.
    pub open spec fn ahead(self, a: Candidate<'_>, b: Candidate<'_>) -> bool {
        let by_keys = if self.from_end {
            order::beats(self.order, *b.counts, *a.counts)
        } else {
            order::beats(self.order, *a.counts, *b.counts)
        };
        if self.saved_first {
            saved_rank(a) > saved_rank(b) || (saved_rank(a) == saved_rank(b) && by_keys)
        } else {
            by_keys
        }
    }

    /// Every row of `s` is counted before those that follow it.
    pub open spec fn in_order(self, s: Seq<Candidate<'_>>) -> bool {
        forall|i: int, j: int| 0 <= i < j < s.len() ==> self.ahead(#[trigger] s[i], #[trigger] s[j])
    }

    /// `s` holds the rows of `rule` within the bounds, each once, in the order in which they are
    /// counted.
    pub open spec fn is_ranking<'a>(
        self,
        rule: spec_fn(Candidate<'a>) -> bool,
        s: Seq<Candidate<'a>>,
    ) -> bool {
        &&& self.in_order(s)
        &&& forall|c: Candidate<'a>| #[trigger] s.contains(c) <==> rule(c) && self.within(c)
    }

    /// The rows of `rule` within the bounds, in the order in which they are counted.
    pub open spec fn ranking<'a>(self, rule: spec_fn(Candidate<'a>) -> bool) -> Seq<Candidate<'a>> {
        choose|s: Seq<Candidate<'a>>| self.is_ranking(rule, s)
    }

    /// The rows that the listing yields: the wanted part of the ranking, in listing order.
    pub open spec fn page<'a>(self, rule: spec_fn(Candidate<'a>) -> bool) -> Seq<Candidate<'a>> {
        let wanted = window(self.ranking(rule), self.offset as int, self.limit as int);
        if self.from_end {
            wanted.reverse()
        } else {
            wanted
        }
    }

    /// The ordering tells any two posts apart.
    pub open spec fn wf(self) -> bool {
        self.order.contains(SortKey::PostId)
    }

    /// `s` holds, in order, the rows of the ranking that stem from the first `n` posts.
    pub open spec fn ranks_first<'a>(
        self,
        db: &Database,
        who: PersonId,
        rule: spec_fn(Candidate<'a>) -> bool,
        n: int,
        s: Seq<Candidate<'a>>,
    ) -> bool {
        &&& self.in_order(s)
        &&& forall|c: Candidate<'a>| #[trigger]
            s.contains(c) <==> rule(c) && self.within(c) && exists|i: int|
                0 <= i < n && db.joined(who, #[trigger] db.post_aggregates@[i]) == Some(c)
    }

    /// `ahead` is transitive.
    pub proof fn lemma_ahead_transitive(
        self,
        a: Candidate<'_>,
        b: Candidate<'_>,
        c: Candidate<'_>,
    )
        requires
            self.ahead(a, b),
            self.ahead(b, c),
        ensures
            self.ahead(a, c),
    {
        let keys = self.order;
        if !self.saved_first || (saved_rank(a) == saved_rank(b) && saved_rank(b) == saved_rank(
            c,
        )) {
            if self.from_end {
                order::lemma_transitive(keys, *c.counts, *b.counts, *a.counts);
            } else {
                order::lemma_transitive(keys, *a.counts, *b.counts, *c.counts);
            }
        }
    }

    /// No row is counted before itself, nor before one that is counted before it.
    pub proof fn lemma_ahead_exclusive(self, a: Candidate<'_>, b: Candidate<'_>)
        requires
            self.ahead(a, b),
        ensures
            !self.ahead(b, a),
            a != b,
    {
        let keys = self.order;
        if !self.saved_first || saved_rank(a) == saved_rank(b) {
            if self.from_end {
                order::lemma_exclusive(keys, *b.counts, *a.counts);
            } else {
                order::lemma_exclusive(keys, *a.counts, *b.counts);
            }
            if a == b {
                assert(order::ties(keys, *a.counts, *b.counts));
            }
        }
    }

    /// Of two rows for different posts one is counted before the other.
    pub proof fn lemma_ahead_total(self, a: Candidate<'_>, b: Candidate<'_>)
        requires
            self.wf(),
            a.counts.post_id != b.counts.post_id,
        ensures
            self.ahead(a, b) || self.ahead(b, a),
    {
        let keys = self.order;
        order::lemma_trichotomy(keys, *a.counts, *b.counts, keys.len() as int);
        if order::ties(keys, *a.counts, *b.counts) {
            order::lemma_ties_same_post(keys, *a.counts, *b.counts);
        }
    }

    /// Putting a row in its place keeps the order and adds that row alone.
    pub proof fn lemma_insert(self, s: Seq<Candidate<'_>>, p: int, c: Candidate<'_>)
        requires
            self.in_order(s),
            0 <= p <= s.len(),
            forall|i: int| 0 <= i < p ==> self.ahead(#[trigger] s[i], c),
            forall|i: int| p <= i < s.len() ==> self.ahead(c, #[trigger] s[i]),
        ensures
            self.in_order(s.insert(p, c)),
            forall|d: Candidate<'_>| #[trigger]
                s.insert(p, c).contains(d) <==> s.contains(d) || d == c,
    {
        let t = s.insert(p, c);
        assert forall|i: int, j: int| 0 <= i < j < t.len() implies self.ahead(
            #[trigger] t[i],
            #[trigger] t[j],
        ) by {
            let si = if i < p { i } else { i - 1 };
            let sj = if j < p { j } else { j - 1 };
            if i != p {
                assert(t[i] == s[si]);
            }
            if j != p {
                assert(t[j] == s[sj]);
            }
        }
        assert forall|d: Candidate<'_>| #[trigger]
            t.contains(d) <==> s.contains(d) || d == c by {
            if t.contains(d) {
                let k = choose|k: int| 0 <= k < t.len() && t[k] == d;
                if k < p {
                    assert(s[k] == d);
                } else if k > p {
                    assert(s[k - 1] == d);
                }
            }
            if s.contains(d) {
                let k = choose|k: int| 0 <= k < s.len() && s[k] == d;
                if k < p {
                    assert(t[k] == d);
                } else {
                    assert(t[k + 1] == d);
                }
            }
            if d == c {
                assert(t[p] == d);
            }
        }
    }

    /// A row has a place in any ordered sequence of rows for other posts.
    proof fn lemma_place_exists(self, s: Seq<Candidate<'_>>, c: Candidate<'_>) -> (p: int)
        requires
            self.wf(),
            self.in_order(s),
            forall|i: int|
                0 <= i < s.len() ==> (#[trigger] s[i]).counts.post_id != c.counts.post_id,
        ensures
            0 <= p <= s.len(),
            forall|i: int| 0 <= i < p ==> self.ahead(#[trigger] s[i], c),
            forall|i: int| p <= i < s.len() ==> self.ahead(c, #[trigger] s[i]),
        decreases s.len(),
    {
        if s.len() == 0 {
            0
        } else {
            let init = s.drop_last();
            let last = s.last();
            self.lemma_ahead_total(last, c);
            if self.ahead(last, c) {
                assert forall|i: int| 0 <= i < s.len() implies self.ahead(#[trigger] s[i], c) by {
                    if i < s.len() - 1 {
                        assert(self.ahead(s[i], s[s.len() - 1]));
                        self.lemma_ahead_transitive(s[i], last, c);
                    }
                }
                s.len() as int
            } else {
                assert forall|i: int, j: int| 0 <= i < j < init.len() implies self.ahead(
                    #[trigger] init[i],
                    #[trigger] init[j],
                ) by {
                    assert(self.ahead(s[i], s[j]));
                }
                let p = self.lemma_place_exists(init, c);
                assert forall|i: int| 0 <= i < p implies self.ahead(#[trigger] s[i], c) by {
                    assert(self.ahead(init[i], c));
                }
                assert forall|i: int| p <= i < s.len() implies self.ahead(c, #[trigger] s[i]) by {
                    if i < s.len() - 1 {
                        assert(self.ahead(c, init[i]));
                    }
                }
                p
            }
        }
    }

    /// Rows that stem from different posts carry different post ids.
    pub proof fn lemma_fresh<'a>(
        self,
        db: &Database,
        who: PersonId,
        rule: spec_fn(Candidate<'a>) -> bool,
        n: int,
        s: Seq<Candidate<'a>>,
        c: Candidate<'a>,
    )
        requires
            db.wf(),
            0 <= n < db.post_aggregates@.len(),
            self.ranks_first(db, who, rule, n, s),
            db.joined(who, db.post_aggregates@[n]) == Some(c),
        ensures
            forall|i: int|
                0 <= i < s.len() ==> (#[trigger] s[i]).counts.post_id != c.counts.post_id,
    {
        assert forall|i: int| 0 <= i < s.len() implies (#[trigger] s[i]).counts.post_id
            != c.counts.post_id by {
            assert(s.contains(s[i]));
            let k = choose|k: int|
                0 <= k < n && db.joined(who, #[trigger] db.post_aggregates@[k]) == Some(s[i]);
            assert(db.post_aggregates@[k].post_id != db.post_aggregates@[n].post_id);
        }
    }

    /// Looking at one more post adds its row, if it has one that belongs to the ranking.
    pub proof fn lemma_ranks_next<'a>(
        self,
        db: &Database,
        who: PersonId,
        rule: spec_fn(Candidate<'a>) -> bool,
        n: int,
        s: Seq<Candidate<'a>>,
        t: Seq<Candidate<'a>>,
    )
        requires
            0 <= n < db.post_aggregates@.len(),
            self.ranks_first(db, who, rule, n, s),
            self.in_order(t),
            match db.joined(who, db.post_aggregates@[n]) {
                Some(c) => forall|d: Candidate<'a>| #[trigger]
                    t.contains(d) <==> s.contains(d) || (d == c && rule(c) && self.within(c)),
                None => t == s,
            },
        ensures
            self.ranks_first(db, who, rule, n + 1, t),
    {
        assert forall|d: Candidate<'a>| #[trigger]
            t.contains(d) <==> rule(d) && self.within(d) && exists|i: int|
                0 <= i < n + 1 && db.joined(who, #[trigger] db.post_aggregates@[i]) == Some(d) by {
            if t.contains(d) && s.contains(d) {
                let i = choose|i: int|
                    0 <= i < n && db.joined(who, #[trigger] db.post_aggregates@[i]) == Some(d);
                assert(0 <= i < n + 1 && db.joined(who, db.post_aggregates@[i]) == Some(d));
            }
            if rule(d) && self.within(d) && exists|i: int|
                0 <= i < n + 1 && db.joined(who, #[trigger] db.post_aggregates@[i]) == Some(d) {
                let i = choose|i: int|
                    0 <= i < n + 1 && db.joined(who, #[trigger] db.post_aggregates@[i]) == Some(d);
                if i < n {
                    assert(s.contains(d));
                }
            }
        }
    }

    /// The rows that stem from the first `n` posts can be ranked.
    proof fn lemma_rank_first<'a>(
        self,
        db: &Database,
        who: PersonId,
        rule: spec_fn(Candidate<'a>) -> bool,
        n: int,
    ) -> (s: Seq<Candidate<'a>>)
        requires
            self.wf(),
            db.wf(),
            0 <= n <= db.post_aggregates@.len(),
        ensures
            self.ranks_first(db, who, rule, n, s),
        decreases n,
    {
        if n == 0 {
            Seq::empty()
        } else {
            let s = self.lemma_rank_first(db, who, rule, n - 1);
            let t = match db.joined(who, db.post_aggregates@[n - 1]) {
                Some(c) => {
                    if rule(c) && self.within(c) {
                        self.lemma_fresh(db, who, rule, n - 1, s, c);
                        let p = self.lemma_place_exists(s, c);
                        self.lemma_insert(s, p, c);
                        s.insert(p, c)
                    } else {
                        s
                    }
                },
                None => s,
            };
            self.lemma_ranks_next(db, who, rule, n - 1, s, t);
            t
        }
    }

    /// What ranks the rows of all posts is a ranking.
    pub proof fn lemma_ranks_all<'a>(
        self,
        db: &Database,
        who: PersonId,
        rule: spec_fn(Candidate<'a>) -> bool,
        s: Seq<Candidate<'a>>,
    )
        requires
            self.ranks_first(db, who, rule, db.post_aggregates@.len() as int, s),
            forall|c: Candidate<'a>| #[trigger] rule(c) ==> db.has_candidate(who, c),
        ensures
            self.is_ranking(rule, s),
    {
    }

    /// Two rankings are the same sequence.
    pub proof fn lemma_ranking_unique<'a>(
        self,
        rule: spec_fn(Candidate<'a>) -> bool,
        s: Seq<Candidate<'a>>,
        t: Seq<Candidate<'a>>,
    )
        requires
            self.is_ranking(rule, s),
            self.is_ranking(rule, t),
        ensures
            s == t,
    {
        self.lemma_same_rows_same_order(s, t);
    }

    /// Two ordered sequences that hold the same rows are the same.
    pub proof fn lemma_same_rows_same_order(self, s: Seq<Candidate<'_>>, t: Seq<Candidate<'_>>)
        requires
            self.in_order(s),
            self.in_order(t),
            forall|c: Candidate<'_>| #[trigger] s.contains(c) <==> t.contains(c),
        ensures
            s == t,
        decreases s.len(),
    {
        if s.len() == 0 {
            if t.len() > 0 {
                assert(s.contains(t[0]));
            }
            assert(s =~= t);
        } else {
            assert(s.contains(s.last()));
            assert(t.len() > 0);
            assert(t.contains(t.last()));
            if s.last() != t.last() {
                assert(s.contains(t.last()));
                assert(t.contains(s.last()));
                let i = choose|i: int| 0 <= i < s.len() && s[i] == t.last();
                let j = choose|j: int| 0 <= j < t.len() && t[j] == s.last();
                assert(self.ahead(s[i], s[s.len() - 1]));
                assert(self.ahead(t[j], t[t.len() - 1]));
                self.lemma_ahead_exclusive(t.last(), s.last());
            }
            let s1 = s.drop_last();
            let t1 = t.drop_last();
            assert forall|c: Candidate<'_>| #[trigger] s1.contains(c) <==> t1.contains(c) by {
                self.lemma_drop_last(s, c);
                self.lemma_drop_last(t, c);
            }
            self.lemma_prefix_in_order(s, s.len() - 1);
            self.lemma_prefix_in_order(t, t.len() - 1);
            assert(s1 =~= s.subrange(0, s.len() - 1));
            assert(t1 =~= t.subrange(0, t.len() - 1));
            self.lemma_same_rows_same_order(s1, t1);
            assert(s =~= s1.push(s.last()));
            assert(t =~= t1.push(t.last()));
        }
    }

    /// Dropping the last row of an ordered sequence drops that row alone.
    proof fn lemma_drop_last(self, s: Seq<Candidate<'_>>, c: Candidate<'_>)
        requires
            self.in_order(s),
            s.len() > 0,
        ensures
            s.drop_last().contains(c) <==> s.contains(c) && c != s.last(),
    {
        let init = s.drop_last();
        if init.contains(c) {
            let i = choose|i: int| 0 <= i < init.len() && init[i] == c;
            assert(s[i] == c);
            assert(self.ahead(s[i], s[s.len() - 1]));
            self.lemma_ahead_exclusive(s[i], s[s.len() - 1]);
        }
        if s.contains(c) && c != s.last() {
            let i = choose|i: int| 0 <= i < s.len() && s[i] == c;
            assert(init[i] == c);
        }
    }

    /// A prefix of an ordered sequence is ordered.
    pub proof fn lemma_prefix_in_order(self, s: Seq<Candidate<'_>>, n: int)
        requires
            self.in_order(s),
            0 <= n <= s.len(),
        ensures
            self.in_order(s.subrange(0, n)),
    {
        let t = s.subrange(0, n);
        assert forall|i: int, j: int| 0 <= i < j < t.len() implies self.ahead(
            #[trigger] t[i],
            #[trigger] t[j],
        ) by {
            assert(self.ahead(s[i], s[j]));
        }
    }

    /// Rows of the join have a ranking where the keys tell posts apart.
    pub proof fn lemma_ranking<'a>(
        self,
        db: &Database,
        who: PersonId,
        rule: spec_fn(Candidate<'a>) -> bool,
    )
        requires
            self.wf(),
            db.wf(),
            forall|c: Candidate<'a>| #[trigger] rule(c) ==> db.has_candidate(who, c),
        ensures
            self.is_ranking(rule, self.ranking(rule)),
    {
        let s = self.lemma_rank_first(db, who, rule, db.post_aggregates@.len() as int);
        self.lemma_ranks_all(db, who, rule, s);
    }
}

impl ListPlan {
    /// The layout of the listing.
    pub open spec fn layout(&self) -> Layout {
        Layout {
            saved_first: self.saved_first,
            order: self.order@,
            after: self.after,
            before: self.before,
            from_end: self.from_end,
            limit: self.limit as nat,
            offset: self.offset as nat,
        }
    }

    /// The ordering tells any two posts apart.
    pub open spec fn wf(&self) -> bool {
        self.layout().wf()
    }

    /// The rows that answer the plan, in the order in which they are counted.
    pub open spec fn ranking<'a>(&self, db: &Database) -> Seq<Candidate<'a>> {
        self.layout().ranking(self.selection.rule(db))
    }

    /// The rows that the plan yields.
    pub open spec fn page<'a>(&self, db: &Database) -> Seq<Candidate<'a>> {
        self.layout().page(self.selection.rule(db))
    }
}

} // verus!
