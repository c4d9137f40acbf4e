//! Bounding a page of the subscribed listing before it is fetched.
//!
//! A page of the posts of all followed communities is found faster if its far end is known. One
//! page of the posts of a single followed community gives such an end: if it is full, the page of
//! all communities cannot reach farther. The community with the most active users gives the
//! tightest one. Saved posts take no bound: they are ordered by the time they were saved, and a
//! bound cuts along the sort keys.

use vstd::prelude::*;

use crate::cursor::PaginationCursorData;
use crate::order;
use crate::plan;
use crate::plan::Layout;
use crate::policy;
use crate::query::{PostQuery, Site, Window};
use crate::tables::{Candidate, Database, PostAggregates};
use crate::types::{CommunityId, ListingType, PersonId};

verus! {

impl<'a> PostQuery<'a> {
    /// The query asks for a page of the subscribed listing whose far end is not known.
    pub open spec fn lacks_upper_bound(self) -> bool {
        &&& self.listing_type == Some(ListingType::Subscribed)
        &&& self.community_id is None
        &&& self.local_user is Some
        &&& self.page_before_or_equal is None
    }

    /// The same query, for one community.
    pub open spec fn for_community(self, id: CommunityId) -> PostQuery<'a> {
        PostQuery { community_id: Some(id), community_id_just_for_prefetch: true, ..self }
    }

    /// The same query, up to the given post.
    pub open spec fn up_to(self, counts: PostAggregates) -> PostQuery<'a> {
        PostQuery { page_before_or_equal: Some(PaginationCursorData(counts)), ..self }
    }

    /// The query with the bound that a page of one community sets. A page that is not full sets
    /// none, and a query for saved posts takes none. The bound is the post that lies farthest from
    /// the start.
    pub open spec fn bounded_by(self, w: Window, page: Seq<PostAggregates>) -> PostQuery<'a> {
        if self.saved_only == Some(true) || page.len() < w.limit {
            self
        } else if self.page_back == Some(true) {
            self.up_to(page.first())
        } else {
            self.up_to(page.last())
        }
    }
}

/// The counts of the rows.
pub open spec fn counts_of(rows: Seq<Candidate<'_>>) -> Seq<PostAggregates> {
    rows.map_values(|c: Candidate<'_>| *c.counts)
}

impl Database {
    /// `id` is a community that the person follows, and none that they follow has more users who
    /// were active in the last month.
    pub open spec fn is_largest_subscribed(&self, person: PersonId, id: CommunityId) -> bool {
        &&& self.follows(person, id)
        &&& exists|i: int|
            {
                &&& 0 <= i < self.community_aggregates@.len()
                &&& (#[trigger] self.community_aggregates@[i]).community_id == id
                &&& forall|j: int|
                    0 <= j < self.community_aggregates@.len() && self.follows(
                        person,
                        (#[trigger] self.community_aggregates@[j]).community_id,
                    ) ==> self.community_aggregates@[j].users_active_month
                        <= self.community_aggregates@[i].users_active_month
            }
    }

    /// The person follows no community.
    pub open spec fn follows_nothing(&self, person: PersonId) -> bool {
        forall|id: CommunityId| !#[trigger] self.follows(person, id)
    }

    /// The person follows a community whose size is known.
    pub open spec fn has_subscribed(&self, person: PersonId) -> bool {
        exists|j: int|
            0 <= j < self.community_aggregates@.len() && self.follows(
                person,
                (#[trigger] self.community_aggregates@[j]).community_id,
            )
    }

    /// `largest` is one of the largest communities that the person follows; it is `None` where
    /// the person follows none whose size is known.
    pub open spec fn finds_largest(&self, person: PersonId, largest: Option<CommunityId>) -> bool {
        match largest {
            Some(id) => self.is_largest_subscribed(person, id),
            None => !self.has_subscribed(person),
        }
    }

    /// Finds the largest community that the person follows.
    pub fn largest_subscribed(&self, person: PersonId) -> (id: Option<CommunityId>)
        ensures
            self.finds_largest(person, id),
    {
        let mut best: Option<usize> = None;
        let mut i: usize = 0;
        while i < self.community_aggregates.len()
            invariant
                i <= self.community_aggregates@.len(),
                match best {
                    Some(b) => {
                        &&& b < i
                        &&& self.follows(person, self.community_aggregates@[b as int].community_id)
                        &&& forall|j: int|
                            0 <= j < i && self.follows(
                                person,
                                (#[trigger] self.community_aggregates@[j]).community_id,
                            ) ==> self.community_aggregates@[j].users_active_month
                                <= self.community_aggregates@[b as int].users_active_month
                    },
                    None => forall|j: int|
                        0 <= j < i ==> !self.follows(
                            person,
                            (#[trigger] self.community_aggregates@[j]).community_id,
                        ),
                },
            decreases self.community_aggregates.len() - i,
        {
            let row = &self.community_aggregates[i];
            if self.is_follower(person, row.community_id) {
                let larger = match best {
                    Some(b) => row.users_active_month
                        > self.community_aggregates[b].users_active_month,
                    None => true,
                };
                if larger {
                    best = Some(i);
                }
            }
            i += 1;
        }
        match best {
            Some(b) => Some(self.community_aggregates[b].community_id),
            None => None,
        }
    }
}

/// One who has a largest community follows a community whose size is known.
pub proof fn lemma_largest_is_subscribed(db: &Database, person: PersonId, id: CommunityId)
    requires
        db.is_largest_subscribed(person, id),
    ensures
        db.has_subscribed(person),
{
    let i = choose|i: int|
        0 <= i < db.community_aggregates@.len() && (
        #[trigger] db.community_aggregates@[i]).community_id == id;
    assert(db.follows(person, db.community_aggregates@[i].community_id));
}

/// In an ordered sequence no row comes earlier than in an ordered sequence of some of its rows.
proof fn lemma_subsequence_index(
    l: Layout,
    some: Seq<Candidate<'_>>,
    all: Seq<Candidate<'_>>,
    i: int,
    j: int,
)
    requires
        l.in_order(some),
        l.in_order(all),
        forall|c: Candidate<'_>| #[trigger] some.contains(c) ==> all.contains(c),
        0 <= i < some.len(),
        0 <= j < all.len(),
        some[i] == all[j],
    ensures
        j >= i,
    decreases i,
{
    if i > 0 {
        assert(some.contains(some[i - 1]));
        let k = choose|k: int| 0 <= k < all.len() && all[k] == some[i - 1];
        assert(l.ahead(some[i - 1], some[i]));
        l.lemma_ahead_exclusive(some[i - 1], some[i]);
        if j < k {
            assert(l.ahead(all[j], all[k]));
        }
        lemma_subsequence_index(l, some, all, i - 1, k);
    }
}

/// A query that is confined to a community for the sake of a bound is handled as if the community
/// had not been given, except that it lists posts of that community alone.
pub proof fn law_for_community(
    db: &Database,
    c: Candidate<'_>,
    q: PostQuery<'_>,
    site: Site,
    w: Window,
    id: CommunityId,
)
    requires
        q.community_id is None,
    ensures
        policy::layout(q.for_community(id), w) == policy::layout(q, w),
        policy::listed(db, c, q.for_community(id), site) == (policy::listed(db, c, q, site)
            && c.counts.community_id == id),
{
    let p = q.for_community(id);
    assert(policy::state_rule(c, p) == policy::state_rule(c, q));
    assert(policy::removal_rule(c, p) == policy::removal_rule(c, q));
    assert(policy::listing_rule(db, c, p, site) == policy::listing_rule(db, c, q, site));
    assert(policy::search_rule(db, c, p) == policy::search_rule(db, c, q));
    assert(policy::content_rule(c, p, site) == policy::content_rule(c, q, site));
    assert(policy::history_rule(db, c, p) == policy::history_rule(db, c, q));
    assert(policy::vote_rule(db, c, p) == policy::vote_rule(db, c, q));
    assert(policy::visibility_rule(db, c, p) == policy::visibility_rule(db, c, q));
    assert(policy::personal_rule(db, c, p, site) == policy::personal_rule(db, c, q, site));
    assert(policy::period_rule(db, c, p) == policy::period_rule(db, c, q));
}

/// The bound does not change the page: whichever community it was taken from, the query with the
/// bound yields the same posts as the query without it.
pub proof fn law_bound_keeps_page(
    db: &Database,
    q: PostQuery<'_>,
    site: Site,
    w: Window,
    id: CommunityId,
)
    requires
        db.wf(),
        q.lacks_upper_bound(),
    ensures
        policy::page(
            db,
            q.bounded_by(w, counts_of(policy::page(db, q.for_community(id), site, w))),
            site,
            w,
        ) == policy::page(db, q, site, w),
{
    let l = policy::layout(q, w);
    let rule = policy::rule(db, q, site);
    let who = policy::person_or_nobody(q.local_user);
    let keys = policy::sort_keys(q);
    assert(keys[keys.len() - 1] == order::SortKey::PostId);
    l.lemma_ranking(db, who, rule);
    let all = l.ranking(rule);

    let one = q.for_community(id);
    let rule1 = policy::rule(db, one, site);
    assert(policy::layout(one, w) == l);
    l.lemma_ranking(db, who, rule1);
    let some = l.ranking(rule1);
    assert forall|c: Candidate<'_>| #[trigger] some.contains(c) implies all.contains(c) by {
        law_for_community(db, c, q, site, w, id);
    }
    let page1 = policy::page(db, one, site, w);
    let counts = counts_of(page1);
    let bounded = q.bounded_by(w, counts);
    if w.limit == 0 {
        assert(policy::page(db, bounded, site, w) =~= policy::page(db, q, site, w));
    } else if q.saved_only != Some(true) && counts.len() >= w.limit {
        let last = w.offset + w.limit - 1;
        let item = some[last];
        assert(some.contains(item));
        let m = choose|m: int| 0 <= m < all.len() && all[m] == item;
        lemma_subsequence_index(l, some, all, last, m);
        assert(bounded == q.up_to(*item.counts));

        let lb = policy::layout(bounded, w);
        let ruleb = policy::rule(db, bounded, site);
        assert(ruleb =~= rule) by {
            assert forall|c: Candidate<'_>| #[trigger] ruleb(c) == rule(c) by {
                assert(policy::listed(db, c, bounded, site) == policy::listed(db, c, q, site));
            }
        }
        let head = all.take(m + 1);
        assert forall|i: int, j: int| 0 <= i < j < head.len() implies lb.ahead(
            #[trigger] head[i],
            #[trigger] head[j],
        ) by {
            assert(l.ahead(all[i], all[j]));
        }
        assert forall|c: Candidate<'_>| #[trigger]
            head.contains(c) <==> rule(c) && lb.within(c) by {
            if head.contains(c) {
                let i = choose|i: int| 0 <= i < head.len() && head[i] == c;
                assert(all[i] == c);
                assert(all.contains(c));
                if i < m {
                    assert(l.ahead(all[i], all[m]));
                } else {
                    assert(order::ties(keys, *c.counts, *item.counts));
                }
            }
            if rule(c) && lb.within(c) {
                assert(l.within(c));
                assert(all.contains(c));
                let i = choose|i: int| 0 <= i < all.len() && all[i] == c;
                if i > m {
                    assert(l.ahead(all[m], all[i]));
                    if l.from_end {
                        order::lemma_exclusive(keys, *c.counts, *item.counts);
                    } else {
                        order::lemma_exclusive(keys, *item.counts, *c.counts);
                    }
                }
                assert(head[i] == c);
            }
        }
        assert(lb.is_ranking(rule, head));
        lb.lemma_ranking(db, who, rule);
        lb.lemma_ranking_unique(rule, head, lb.ranking(rule));
        assert(plan::window(head, w.offset as int, w.limit as int) =~= plan::window(
            all,
            w.offset as int,
            w.limit as int,
        ));
    }
}

/// One who follows no community has an empty subscribed listing.
pub proof fn law_nothing_subscribed(db: &Database, q: PostQuery<'_>, site: Site, w: Window)
    requires
        db.wf(),
        q.listing_type == Some(ListingType::Subscribed),
        db.follows_nothing(policy::person_or_nobody(q.local_user)),
    ensures
        policy::page(db, q, site, w) == Seq::<Candidate<'_>>::empty(),
{
    let l = policy::layout(q, w);
    let rule = policy::rule(db, q, site);
    let me = policy::person_or_nobody(q.local_user);
    let keys = policy::sort_keys(q);
    assert(keys[keys.len() - 1] == order::SortKey::PostId);
    l.lemma_ranking(db, me, rule);
    let all = l.ranking(rule);
    if all.len() > 0 {
        let c = all[0];
        assert(all.contains(c));
        assert(db.follows(me, c.counts.community_id));
    }
    assert(policy::page(db, q, site, w) =~= Seq::<Candidate<'_>>::empty());
}

} // verus!
