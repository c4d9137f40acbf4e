//! How pages are cut from listings, by number and by cursor, and how the far end of a page is
//! found.

use vstd::prelude::*;

use crate::cursor::PaginationCursorData;
use crate::facts;
use crate::laws;
use crate::listing;
use crate::listing::Step;
use crate::order;
use crate::order::SortKey;
use crate::plan::ListPlan;
use crate::policy;
use crate::prefetch;
use crate::query::{PostQuery, Site, Window};
use crate::tables::{Candidate, Database, PostAggregates};
use crate::types::{CommunityId, ListingType, PersonId, QueryError};

verus! {

/// A page is cut from the posts of the listing that lie within the cursors. Going forward, these
/// are the posts that come after the cursor of the query and, if there is a bound, not after the
/// bound, in the order of the keys; saved posts stand by the time they were saved, and then in
/// that order. Going back, they are the posts before the cursor and not before the bound, in the
/// opposite order of the keys. The page holds those that remain when the offset is skipped, as
/// many as the limit allows; going back, they are turned round.
pub proof fn law_page_cut<'a>(db: &Database, q: PostQuery<'_>, site: Site, w: Window) -> (pool: Seq<
    Candidate<'a>,
>)
    requires
        db.wf(),
    ensures
        forall|c: Candidate<'a>| #[trigger]
            pool.contains(c) <==> {
                let keys = policy::sort_keys(q);
                let back = q.page_back == Some(true);
                let near = q.page_after->0;
                let far = q.page_before_or_equal->0;
                &&& laws::listing(db, q, site).contains(c)
                &&& q.page_after is Some && !back ==> order::beats(
                    keys,
                    near.0,
                    *c.counts,
                )
                &&& q.page_after is Some && back ==> order::beats(
                    keys,
                    *c.counts,
                    near.0,
                )
                &&& q.page_before_or_equal is Some && !back ==> order::beats(
                    keys,
                    *c.counts,
                    far.0,
                ) || order::ties(keys, *c.counts, far.0)
                &&& q.page_before_or_equal is Some && back ==> order::beats(
                    keys,
                    far.0,
                    *c.counts,
                ) || order::ties(keys, far.0, *c.counts)
            },
        forall|i: int, j: int|
            0 <= i < j < pool.len() ==> {
                let a = #[trigger] pool[i];
                let b = #[trigger] pool[j];
                let by_keys = if q.page_back == Some(true) {
                    order::beats(policy::sort_keys(q), *b.counts, *a.counts)
                } else {
                    order::beats(policy::sort_keys(q), *a.counts, *b.counts)
                };
                if q.saved_only == Some(true) {
                    &&& a.saved is Some && b.saved is Some
                    &&& a.saved->0.published >= b.saved->0.published
                    &&& a.saved->0.published == b.saved->0.published ==> by_keys
                } else {
                    by_keys
                }
            },
        policy::page(db, q, site, w).len() == (if pool.len() <= w.offset {
            0
        } else if pool.len() - w.offset <= w.limit {
            pool.len() - w.offset
        } else {
            w.limit as int
        }),
        forall|k: int|
            0 <= k < policy::page(db, q, site, w).len() ==> #[trigger] policy::page(
                db,
                q,
                site,
                w,
            )[k] == (if q.page_back == Some(true) {
                pool[w.offset + policy::page(db, q, site, w).len() - 1 - k]
            } else {
                pool[w.offset + k]
            }),
{
    let l = policy::layout(q, w);
    laws::lemma_ranked(l, db, q, site);
    let rule = policy::rule(db, q, site);
    let pool = l.ranking(rule);
    laws::law_listing_complete(db, q, site);
    assert forall|i: int, j: int| 0 <= i < j < pool.len() implies ({
        let a = #[trigger] pool[i];
        let b = #[trigger] pool[j];
        let by_keys = if q.page_back == Some(true) {
            order::beats(policy::sort_keys(q), *b.counts, *a.counts)
        } else {
            order::beats(policy::sort_keys(q), *a.counts, *b.counts)
        };
        if q.saved_only == Some(true) {
            &&& a.saved is Some && b.saved is Some
            &&& a.saved->0.published >= b.saved->0.published
            &&& a.saved->0.published == b.saved->0.published ==> by_keys
        } else {
            by_keys
        }
    }) by {
        assert(l.ahead(pool[i], pool[j]));
        assert(pool.contains(pool[i]));
        assert(pool.contains(pool[j]));
    }
    pool
}

/// A plan is carried out on the rows of the join for its viewer that meet all of its conditions and
/// lie within its bounds: after the one, before the other, or at a bound that belongs to the
/// listing. They are ranked by the time of saving, where that comes first, and by the keys, or by
/// the keys turned round where the page is counted from the end; what remains of them when the
/// offset is skipped, up to the limit, is the page, turned round once more in that case.
pub proof fn law_plan_cut<'a>(db: &Database, p: ListPlan) -> (pool: Seq<Candidate<'a>>)
    requires
        db.wf(),
        p.order@.contains(SortKey::PostId),
    ensures
        forall|c: Candidate<'a>| #[trigger]
            pool.contains(c) <==> {
                let keys = p.order@;
                let after = p.after->0;
                let before = p.before->0;
                &&& db.has_candidate(
                    match p.selection.viewer {
                        Some(person) => person,
                        None => PersonId((-1) as i32),
                    },
                    c,
                )
                &&& forall|i: int|
                    0 <= i < p.selection.filters@.len() ==> (
                    #[trigger] p.selection.filters@[i]).holds(db, c)
                &&& p.after is Some ==> order::beats(keys, after.cursor, *c.counts) || (
                after.or_equal && order::ties(keys, after.cursor, *c.counts))
                &&& p.before is Some ==> order::beats(keys, *c.counts, before.cursor) || (
                before.or_equal && order::ties(keys, *c.counts, before.cursor))
            },
        forall|i: int, j: int|
            0 <= i < j < pool.len() ==> {
                let a = #[trigger] pool[i];
                let b = #[trigger] pool[j];
                let by_keys = if p.from_end {
                    order::beats(p.order@, *b.counts, *a.counts)
                } else {
                    order::beats(p.order@, *a.counts, *b.counts)
                };
                if p.saved_first && a.saved is Some && b.saved is Some {
                    &&& a.saved->0.published >= b.saved->0.published
                    &&& a.saved->0.published == b.saved->0.published ==> by_keys
                } else if p.saved_first && (a.saved is Some || b.saved is Some) {
                    a.saved is None
                } else {
                    by_keys
                }
            },
        p.page(db).len() == (if pool.len() <= p.offset {
            0
        } else if pool.len() - p.offset <= p.limit {
            pool.len() - p.offset
        } else {
            p.limit as int
        }),
        forall|k: int|
            0 <= k < p.page(db).len() ==> #[trigger] p.page(db)[k] == (
            if p.from_end {
                pool[p.offset + p.page(db).len() - 1 - k]
            } else {
                pool[p.offset + k]
            }),
{
    let l = p.layout();
    let rule = p.selection.rule(db);
    l.lemma_ranking(db, p.selection.bookmarks(), rule);
    let pool = l.ranking(rule);
    assert forall|i: int, j: int| 0 <= i < j < pool.len() implies l.ahead(
        #[trigger] pool[i],
        #[trigger] pool[j],
    ) by {}
    pool
}

/// A plan for a query joins for the user of the query, tells posts apart, keeps the limit and the
/// offset, counts from the end going back, puts the time of saving first for saved posts, and is
/// marked where the query only serves to bound another one.
pub proof fn law_plan_of_a_query(q: PostQuery<'_>, site: Site, w: Window, p: ListPlan)
    requires
        q.is_plan(site, w, p),
    ensures
        q.local_user is Some ==> p.selection.viewer == Some(q.local_user->0.person_id),
        q.local_user is None ==> p.selection.viewer is None,
        p.order@.contains(SortKey::PostId),
        p.limit == w.limit,
        p.offset == w.offset,
        p.from_end <==> q.page_back == Some(true),
        p.saved_first <==> q.saved_only == Some(true),
        p.for_upper_bound == q.community_id_just_for_prefetch,
{
}

/// The counts of rows are taken row by row.
pub proof fn law_counts_of_rows(rows: Seq<Candidate<'_>>)
    ensures
        prefetch::counts_of(rows).len() == rows.len(),
        forall|i: int|
            0 <= i < rows.len() ==> #[trigger] prefetch::counts_of(rows)[i] == *rows[i].counts,
{
}

/// Going forward without cursors, a page by number is a part of the whole listing, for saved posts
/// too: it starts where the offset says, or at the end, and holds as many posts as the limit
/// allows.
pub proof fn law_page_by_number(db: &Database, q: PostQuery<'_>, site: Site, w: Window)
    requires
        db.wf(),
        q.page_back != Some(true),
        q.page_after is None,
        q.page_before_or_equal is None,
    ensures
        ({
            let all = laws::listing(db, q, site);
            let start = if w.offset <= all.len() { w.offset as int } else { all.len() as int };
            let end = if w.offset + w.limit <= all.len() {
                w.offset + w.limit
            } else {
                all.len() as int
            };
            policy::page(db, q, site, w) == all.subrange(start, end)
        }),
{
    let l = policy::layout(q, w);
    let f = laws::whole(q);
    laws::lemma_ranked(l, db, q, site);
    laws::lemma_ranked(f, db, q, site);
    let rule = policy::rule(db, q, site);
    let all = laws::listing(db, q, site);
    assert forall|i: int, j: int| 0 <= i < j < all.len() implies l.ahead(
        #[trigger] all[i],
        #[trigger] all[j],
    ) by {
        assert(f.ahead(all[i], all[j]));
    }
    assert forall|c: Candidate<'_>| #[trigger] all.contains(c) <==> rule(c) && l.within(c) by {
        assert(f.within(c));
        assert(l.within(c));
    }
    assert(l.is_ranking(rule, all));
    l.lemma_ranking_unique(rule, all, l.ranking(rule));
}

/// The first `n` pages of a query by number, one after the other, with `limit` posts each.
pub open spec fn numbered_pages<'a>(
    db: &Database,
    q: PostQuery<'_>,
    site: Site,
    limit: u64,
    n: nat,
) -> Seq<Candidate<'a>>
    decreases n,
{
    if n == 0 {
        Seq::empty()
    } else {
        numbered_pages(db, q, site, limit, (n - 1) as nat) + policy::page(
            db,
            q,
            site,
            (Window { limit, offset: ((n - 1) * limit) as u64 }),
        )
    }
}

/// The pages of a listing by number, one after the other, give the listing from its start, each
/// post once, for saved posts too; enough of them give the whole.
pub proof fn law_numbered_pages_complete(
    db: &Database,
    q: PostQuery<'_>,
    site: Site,
    limit: u64,
    n: nat,
)
    requires
        db.wf(),
        q.page_back != Some(true),
        q.page_after is None,
        q.page_before_or_equal is None,
        n * limit <= u64::MAX,
    ensures
        n * limit >= laws::listing(db, q, site).len() ==> numbered_pages(db, q, site, limit, n)
            == laws::listing(db, q, site),
        n * limit < laws::listing(db, q, site).len() ==> numbered_pages(db, q, site, limit, n)
            == laws::listing(db, q, site).take((n * limit) as int),
    decreases n,
{
    let all = laws::listing(db, q, site);
    if n == 0 {
        assert(n * limit == 0) by (nonlinear_arith)
            requires
                n == 0,
        ;
        assert(numbered_pages(db, q, site, limit, n) =~= all.take(0));
        if all.len() == 0 {
            assert(all.take(0) =~= all);
        }
    } else {
        let m = (n - 1) as nat;
        assert(n * limit == m * limit + limit) by (nonlinear_arith)
            requires
                n == m + 1,
        ;
        law_numbered_pages_complete(db, q, site, limit, m);
        let w = Window { limit, offset: (m * limit) as u64 };
        law_page_by_number(db, q, site, w);
        let before = numbered_pages(db, q, site, limit, m);
        let page = policy::page(db, q, site, w);
        let end = if n * limit <= all.len() { (n * limit) as int } else { all.len() as int };
        if m * limit < all.len() {
            assert(before + page =~= all.take(end));
        } else {
            assert(before + page =~= all);
        }
        if end == all.len() {
            assert(all.take(end) =~= all);
        }
    }
}

/// The far end of a page is looked for just where a logged-in user asks for the subscribed listing
/// without a community and without a bound.
pub proof fn law_when_the_far_end_is_sought(q: PostQuery<'_>)
    ensures
        q.lacks_upper_bound() <==> {
            &&& q.listing_type == Some(ListingType::Subscribed)
            &&& q.local_user is Some
            &&& q.community_id is None
            &&& q.page_before_or_equal is None
        },
{
}

/// A full page of one community bounds the query by the post that lies farthest from the start: its
/// last, or its first going back. A page that is not full, and a query for saved posts, leave the
/// query as it is. Nothing else of the query changes.
pub proof fn law_bound_of_a_page(q: PostQuery<'_>, w: Window, page: Seq<PostAggregates>)
    ensures
        page.len() < w.limit || q.saved_only == Some(true) ==> q.bounded_by(w, page) == q,
        page.len() >= w.limit && q.saved_only != Some(true) ==> q.bounded_by(w, page) == (
        PostQuery {
            page_before_or_equal: Some(
                PaginationCursorData(
                    if q.page_back == Some(true) {
                        page[0]
                    } else {
                        page[page.len() - 1]
                    },
                ),
            ),
            ..q
        }),
{
}

/// The page that bounds a query is that of the same query for one community, handled otherwise as
/// if the community had not been given.
pub proof fn law_query_for_one_community(q: PostQuery<'_>, id: CommunityId)
    ensures
        q.for_community(id) == (PostQuery {
            community_id: Some(id),
            community_id_just_for_prefetch: true,
            ..q
        }),
{
}

/// The largest community of a person is one that they follow and that has its counts; no community
/// that they follow has more active users. There is none just where they follow no community that
/// has its counts.
pub proof fn law_largest_community(db: &Database, person: PersonId, largest: Option<CommunityId>)
    requires
        db.finds_largest(person, largest),
    ensures
        largest is Some <==> exists|i: int, j: int|
            0 <= i < db.community_followers@.len() && 0 <= j < db.community_aggregates@.len() && (
            #[trigger] db.community_followers@[i]).person_id == person
                && db.community_followers@[i].community_id == (
            #[trigger] db.community_aggregates@[j]).community_id,
        largest is Some ==> exists|i: int|
            0 <= i < db.community_followers@.len() && (
            #[trigger] db.community_followers@[i]).person_id == person
                && db.community_followers@[i].community_id == largest->0,
        largest is Some ==> exists|k: int|
            {
                &&& 0 <= k < db.community_aggregates@.len()
                &&& (#[trigger] db.community_aggregates@[k]).community_id == largest->0
                &&& forall|i: int, j: int|
                    0 <= i < db.community_followers@.len() && 0 <= j
                        < db.community_aggregates@.len() && (
                    #[trigger] db.community_followers@[i]).person_id == person
                        && db.community_followers@[i].community_id == (
                    #[trigger] db.community_aggregates@[j]).community_id
                        ==> db.community_aggregates@[j].users_active_month
                        <= db.community_aggregates@[k].users_active_month
            },
{
    assert forall|i: int, j: int|
        0 <= i < db.community_followers@.len() && 0 <= j < db.community_aggregates@.len() && (
        #[trigger] db.community_followers@[i]).person_id == person
            && db.community_followers@[i].community_id == (
        #[trigger] db.community_aggregates@[j]).community_id implies db.follows(
        person,
        db.community_aggregates@[j].community_id,
    ) by {
        facts::law_persons_and_communities(
            db,
            person,
            db.community_aggregates@[j].community_id,
        );
    }
    if let Some(id) = largest {
        facts::law_persons_and_communities(db, person, id);
    }
}

/// What a query lists is its page. Left out are users who ask for the subscribed listing, without a
/// community and without a bound, and follow communities of which none has its counts: they are
/// taken to follow nothing, and get nothing.
pub proof fn law_list_is_the_page(
    db: &Database,
    q: PostQuery<'_>,
    site: Site,
    w: Window,
    rows: Seq<Candidate<'_>>,
)
    requires
        db.wf(),
        q.lists(db, site, w, rows),
    ensures
        ({
            let me = q.local_user->0.person_id;
            let sought = q.listing_type == Some(ListingType::Subscribed) && q.local_user is Some
                && q.community_id is None && q.page_before_or_equal is None;
            let follows = exists|i: int|
                0 <= i < db.community_followers@.len() && (
                #[trigger] db.community_followers@[i]).person_id == me;
            let counted = exists|i: int, j: int|
                0 <= i < db.community_followers@.len() && 0 <= j < db.community_aggregates@.len()
                    && (#[trigger] db.community_followers@[i]).person_id == me
                    && db.community_followers@[i].community_id == (
                #[trigger] db.community_aggregates@[j]).community_id;
            if sought && follows && !counted {
                rows.len() == 0
            } else {
                rows == policy::page(db, q, site, w)
            }
        }),
{
    if q.lacks_upper_bound() {
        let me = q.local_user->0.person_id;
        if db.has_subscribed(me) {
            let j = choose|j: int|
                0 <= j < db.community_aggregates@.len() && db.follows(
                    me,
                    (#[trigger] db.community_aggregates@[j]).community_id,
                );
            let id = db.community_aggregates@[j].community_id;
            facts::law_persons_and_communities(db, me, id);
            let i = choose|i: int|
                0 <= i < db.community_followers@.len() && (
                #[trigger] db.community_followers@[i]).community_id == id
                    && db.community_followers@[i].person_id == me;
            assert(db.community_followers@[i].community_id
                == db.community_aggregates@[j].community_id);
            listing::law_lists_page(db, q, site, w, rows);
        } else {
            assert forall|i: int, j: int|
                0 <= i < db.community_followers@.len() && 0 <= j < db.community_aggregates@.len()
                    && (#[trigger] db.community_followers@[i]).person_id == me implies
                db.community_followers@[i].community_id != (
            #[trigger] db.community_aggregates@[j]).community_id by {
                facts::law_persons_and_communities(
                    db,
                    me,
                    db.community_aggregates@[j].community_id,
                );
                assert(!db.follows(me, db.community_aggregates@[j].community_id));
            }
            if forall|i: int|
                0 <= i < db.community_followers@.len() ==> (
                #[trigger] db.community_followers@[i]).person_id != me {
                assert forall|id: CommunityId| !#[trigger] db.follows(me, id) by {
                    facts::law_persons_and_communities(db, me, id);
                }
                listing::law_lists_page(db, q, site, w, rows);
            }
        }
    } else {
        listing::law_lists_page(db, q, site, w, rows);
    }
}

/// The first step of a query: it fails with what is wrong with the page; a query whose far end is
/// sought fails where an offset is combined with a cursor, and looks for the largest community of
/// its user otherwise; any other query is fetched at once.
pub proof fn law_first_step(
    q: PostQuery<'_>,
    site: Site,
    window: Result<Window, QueryError>,
    step: Step,
)
    requires
        q.is_first_step(site, window, step),
    ensures
        ({
            let sought = q.listing_type == Some(ListingType::Subscribed) && q.local_user is Some
                && q.community_id is None && q.page_before_or_equal is None;
            match window {
                Err(e) => step == Step::Fail(e),
                Ok(w) => {
                    &&& !sought ==> step is Fetch
                    &&& sought && w.offset != 0 && q.page_after is Some ==> step == Step::Fail(
                        QueryError::LegacyPagination,
                    )
                    &&& sought && (w.offset == 0 || q.page_after is None) ==> step
                        == Step::FindLargest(q.local_user->0.person_id)
                },
            }
        }),
{
}

/// A query that asks for nothing in particular has no field set.
pub proof fn law_blank_query(q: PostQuery<'_>)
    requires
        q == PostQuery::blank(),
    ensures
        q.listing_type is None,
        q.sort is None,
        q.creator_id is None,
        q.community_id is None,
        !q.community_id_just_for_prefetch,
        q.local_user is None,
        q.search_term is None,
        q.url_only is None,
        q.saved_only is None,
        q.liked_only is None,
        q.disliked_only is None,
        q.title_only is None,
        q.page is None,
        q.limit is None,
        q.page_after is None,
        q.page_before_or_equal is None,
        q.page_back is None,
        q.show_hidden is None,
        q.show_read is None,
        q.show_nsfw is None,
        q.no_comments_only is None,
{
}

} // verus!
