//! What holds of listings as a whole.

use vstd::prelude::*;

use crate::cursor;
use crate::cursor::PaginationCursorData;
use crate::hex;
use crate::order;
use crate::order::SortKey;
use crate::plan;
use crate::plan::Layout;
use crate::policy;
use crate::query::{PostQuery, Site, Window};
use crate::read;
use crate::scan;
use crate::tables::{
    Candidate, CommunityFollower, CommunityPerson, Database, LocalUser, Post, PostAggregates,
    PostSaved,
};
use crate::types::{CommunityId, CommunityVisibility, ListingType, PersonId, PostId};
use crate::view::PostView;

verus! {

/// The layout of a whole listing.
pub open spec fn whole(q: PostQuery<'_>) -> Layout {
    Layout {
        saved_first: q.saved_only == Some(true),
        order: policy::sort_keys(q),
        after: None,
        before: None,
        from_end: false,
        limit: 0,
        offset: 0,
    }
}

/// The whole listing of a query: every post that it lists, in order, pages aside.
pub open spec fn listing<'a>(db: &Database, q: PostQuery<'_>, site: Site) -> Seq<Candidate<'a>> {
    whole(q).ranking(policy::rule(db, q, site))
}

/// The cursor at a row.
pub open spec fn cursor_at(c: Candidate<'_>) -> Option<PaginationCursorData> {
    Some(PaginationCursorData(*c.counts))
}

/// The keys of a query tell posts apart.
proof fn lemma_keys_wf(q: PostQuery<'_>)
    ensures
        policy::sort_keys(q).contains(SortKey::PostId),
{
    let keys = policy::sort_keys(q);
    assert(keys[keys.len() - 1] == SortKey::PostId);
}

/// The layout of any query ranks the rows of the query.
pub(crate) proof fn lemma_ranked(l: Layout, db: &Database, q: PostQuery<'_>, site: Site)
    requires
        db.wf(),
        l.order == policy::sort_keys(q),
    ensures
        l.is_ranking(policy::rule(db, q, site), l.ranking(policy::rule(db, q, site))),
{
    lemma_keys_wf(q);
    l.lemma_ranking(db, policy::person_or_nobody(q.local_user), policy::rule(db, q, site));
}

/// A whole listing holds each post that the query lists, holds it once, and holds nothing else.
pub proof fn law_listing_complete(db: &Database, q: PostQuery<'_>, site: Site)
    requires
        db.wf(),
    ensures
        forall|c: Candidate<'_>| #[trigger]
            listing(db, q, site).contains(c) <==> {
                &&& db.has_candidate(policy::person_or_nobody(q.local_user), c)
                &&& policy::listed(db, c, q, site)
            },
        forall|i: int, j: int|
            0 <= i < j < listing(db, q, site).len() ==> (#[trigger] listing(
                db,
                q,
                site,
            )[i]).counts.post_id != (#[trigger] listing(db, q, site)[j]).counts.post_id,
{
    lemma_ranked(whole(q), db, q, site);
    let s = listing(db, q, site);
    let l = whole(q);
    let who = policy::person_or_nobody(q.local_user);
    assert forall|c: Candidate<'_>| #[trigger] s.contains(c) <==> {
        &&& db.has_candidate(who, c)
        &&& policy::listed(db, c, q, site)
    } by {
        assert(l.within(c));
    }
    assert forall|i: int, j: int| 0 <= i < j < s.len() implies (#[trigger] s[i]).counts.post_id
        != (#[trigger] s[j]).counts.post_id by {
        assert(l.ahead(s[i], s[j]));
        l.lemma_ahead_exclusive(s[i], s[j]);
        assert(s.contains(s[i]));
        assert(s.contains(s[j]));
        if s[i].counts.post_id == s[j].counts.post_id {
            lemma_one_row_per_post(db, who, s[i], s[j]);
        }
    }
}

/// The join makes at most one row of a post.
pub proof fn lemma_one_row_per_post(
    db: &Database,
    who: PersonId,
    c: Candidate<'_>,
    d: Candidate<'_>,
)
    requires
        db.wf(),
        db.has_candidate(who, c),
        db.has_candidate(who, d),
        c.counts.post_id == d.counts.post_id,
    ensures
        c == d,
{
    let i = choose|i: int|
        0 <= i < db.post_aggregates@.len() && db.joined(who, #[trigger] db.post_aggregates@[i])
            == Some(c);
    let j = choose|j: int|
        0 <= j < db.post_aggregates@.len() && db.joined(who, #[trigger] db.post_aggregates@[j])
            == Some(d);
    assert(db.post_aggregates@[i].post_id == db.post_aggregates@[j].post_id);
    assert(i == j) by {
        if i < j {
            assert(db.post_aggregates@[i].post_id != db.post_aggregates@[j].post_id);
        } else if j < i {
            assert(db.post_aggregates@[j].post_id != db.post_aggregates@[i].post_id);
        }
    }
}

/// The rows that a page after a cursor draws from are those that follow the cursor's row in the
/// whole listing.
proof fn lemma_rest_after(db: &Database, q: PostQuery<'_>, site: Site, w: Window, k: int)
    requires
        db.wf(),
        q.saved_only != Some(true),
        q.page_back != Some(true),
        q.page_before_or_equal is None,
        0 <= k <= listing(db, q, site).len(),
        q.page_after == (if k == 0 {
            None
        } else {
            cursor_at(listing(db, q, site)[k - 1])
        }),
    ensures
        policy::layout(q, w).ranking(policy::rule(db, q, site)) == listing(db, q, site).skip(k),
{
    let full = listing(db, q, site);
    let rule = policy::rule(db, q, site);
    let l = policy::layout(q, w);
    let f = whole(q);
    lemma_ranked(f, db, q, site);
    lemma_ranked(l, db, q, site);
    let rest = full.skip(k);
    assert forall|i: int, j: int| 0 <= i < j < rest.len() implies l.ahead(
        #[trigger] rest[i],
        #[trigger] rest[j],
    ) by {
        assert(f.ahead(full[i + k], full[j + k]));
    }
    assert forall|c: Candidate<'_>| #[trigger] rest.contains(c) <==> rule(c) && l.within(c) by {
        if rest.contains(c) {
            let i = choose|i: int| 0 <= i < rest.len() && rest[i] == c;
            assert(full[i + k] == c);
            assert(full.contains(c));
            if k > 0 {
                assert(f.ahead(full[k - 1], full[i + k]));
            }
        }
        if rule(c) && l.within(c) {
            assert(f.within(c));
            assert(full.contains(c));
            let i = choose|i: int| 0 <= i < full.len() && full[i] == c;
            if k > 0 && i < k {
                assert(order::beats(l.order, *full[k - 1].counts, *c.counts));
                order::lemma_exclusive(l.order, *full[k - 1].counts, *c.counts);
                if i < k - 1 {
                    assert(f.ahead(full[i], full[k - 1]));
                } else {
                    assert(order::ties(l.order, *c.counts, *c.counts));
                }
            }
            assert(rest[i - k] == c);
        }
    }
    assert(l.is_ranking(rule, rest));
    l.lemma_ranking_unique(rule, rest, l.ranking(rule));
}

/// Going forward, the page after the `k`th post of a listing starts with the post that follows it.
/// Saved posts are left out: they are ordered by the time they were saved, which a cursor does not
/// hold.
pub proof fn law_page_after(db: &Database, q: PostQuery<'_>, site: Site, w: Window, k: int)
    requires
        db.wf(),
        q.saved_only != Some(true),
        q.page_back != Some(true),
        q.page_before_or_equal is None,
        0 <= k <= listing(db, q, site).len(),
        q.page_after == (if k == 0 {
            None
        } else {
            cursor_at(listing(db, q, site)[k - 1])
        }),
    ensures
        policy::page(db, q, site, w) == plan::window(
            listing(db, q, site).skip(k),
            w.offset as int,
            w.limit as int,
        ),
{
    lemma_rest_after(db, q, site, w, k);
}

/// Going back, the page before the `k`th post of a listing ends with the post that precedes it.
/// Saved posts are left out: they are ordered by the time they were saved, which a cursor
/// does not hold.
pub proof fn law_page_before(db: &Database, q: PostQuery<'_>, site: Site, w: Window, k: int)
    requires
        db.wf(),
        q.saved_only != Some(true),
        q.page_back == Some(true),
        q.page_before_or_equal is None,
        0 <= k <= listing(db, q, site).len(),
        q.page_after == (if k == listing(db, q, site).len() {
            None
        } else {
            cursor_at(listing(db, q, site)[k])
        }),
    ensures
        policy::page(db, q, site, w) == plan::window(
            listing(db, q, site).take(k).reverse(),
            w.offset as int,
            w.limit as int,
        ).reverse(),
{
    let full = listing(db, q, site);
    let rule = policy::rule(db, q, site);
    let l = policy::layout(q, w);
    let f = whole(q);
    lemma_ranked(f, db, q, site);
    lemma_ranked(l, db, q, site);
    let rest = full.take(k).reverse();
    assert forall|i: int, j: int| 0 <= i < j < rest.len() implies l.ahead(
        #[trigger] rest[i],
        #[trigger] rest[j],
    ) by {
        assert(f.ahead(full[k - 1 - j], full[k - 1 - i]));
    }
    assert forall|c: Candidate<'_>| #[trigger] rest.contains(c) <==> rule(c) && l.within(c) by {
        if rest.contains(c) {
            let i = choose|i: int| 0 <= i < rest.len() && rest[i] == c;
            assert(full[k - 1 - i] == c);
            assert(full.contains(c));
            if k < full.len() {
                assert(f.ahead(full[k - 1 - i], full[k]));
            }
        }
        if rule(c) && l.within(c) {
            assert(f.within(c));
            assert(full.contains(c));
            let i = choose|i: int| 0 <= i < full.len() && full[i] == c;
            if k < full.len() && i >= k {
                assert(order::beats(l.order, *c.counts, *full[k].counts));
                order::lemma_exclusive(l.order, *c.counts, *full[k].counts);
                if i > k {
                    assert(f.ahead(full[k], full[i]));
                } else {
                    assert(order::ties(l.order, *c.counts, *c.counts));
                }
            }
            assert(rest[k - 1 - i] == c);
        }
    }
    assert(l.is_ranking(rule, rest));
    l.lemma_ranking_unique(rule, rest, l.ranking(rule));
}

/// The posts that a client gets who goes forward page by page, each time from the last post of the
/// page before, until a page is empty; `n` bounds the number of pages.
pub open spec fn walk<'a>(
    db: &Database,
    q: PostQuery<'_>,
    site: Site,
    w: Window,
    n: nat,
) -> Seq<Candidate<'a>>
    decreases n,
{
    let page = policy::page(db, q, site, w);
    if n == 0 || page.len() == 0 {
        Seq::empty()
    } else {
        page + walk(
            db,
            PostQuery { page_after: cursor_at(page.last()), ..q },
            site,
            w,
            (n - 1) as nat,
        )
    }
}

/// The posts that a client gets who goes back page by page, each time from the first post of the
/// page after, until a page is empty; `n` bounds the number of pages.
pub open spec fn walk_back<'a>(
    db: &Database,
    q: PostQuery<'_>,
    site: Site,
    w: Window,
    n: nat,
) -> Seq<Candidate<'a>>
    decreases n,
{
    let page = policy::page(db, q, site, w);
    if n == 0 || page.len() == 0 {
        Seq::empty()
    } else {
        walk_back(
            db,
            PostQuery { page_after: cursor_at(page.first()), ..q },
            site,
            w,
            (n - 1) as nat,
        ) + page
    }
}

/// Where the cursor of a query stands does not change what the query lists.
proof fn lemma_cursor_irrelevant(
    db: &Database,
    q: PostQuery<'_>,
    site: Site,
    cursor: Option<PaginationCursorData>,
)
    ensures
        policy::rule(db, PostQuery { page_after: cursor, ..q }, site) == policy::rule(db, q, site),
        listing(db, PostQuery { page_after: cursor, ..q }, site) == listing(db, q, site),
{
    let p = PostQuery { page_after: cursor, ..q };
    assert forall|c: Candidate<'_>| #[trigger]
        policy::rule(db, p, site)(c) == policy::rule(db, q, site)(c) by {
        lemma_same_rules(db, c, p, q, site);
    }
    assert(policy::rule(db, p, site) =~= policy::rule(db, q, site));
    assert(whole(p) == whole(q));
}

/// The rules do not look at the cursors.
proof fn lemma_same_rules(
    db: &Database,
    c: Candidate<'_>,
    p: PostQuery<'_>,
    q: PostQuery<'_>,
    site: Site,
)
    requires
        p == (PostQuery {
            page_after: p.page_after,
            page_before_or_equal: p.page_before_or_equal,
            ..q
        }),
    ensures
        policy::listed(db, c, p, site) == policy::listed(db, c, q, site),
{
}

/// What a walk from the `k`th post yields is the rest of the listing.
proof fn lemma_walk_from(
    db: &Database,
    q: PostQuery<'_>,
    site: Site,
    w: Window,
    k: int,
    n: nat,
)
    requires
        db.wf(),
        q.saved_only != Some(true),
        q.page_back != Some(true),
        q.page_before_or_equal is None,
        w.limit > 0,
        w.offset == 0,
        0 <= k <= listing(db, q, site).len(),
        q.page_after == (if k == 0 {
            None
        } else {
            cursor_at(listing(db, q, site)[k - 1])
        }),
        n > listing(db, q, site).len() - k,
    ensures
        walk(db, q, site, w, n) == listing(db, q, site).skip(k),
    decreases n,
{
    let full = listing(db, q, site);
    law_page_after(db, q, site, w, k);
    let page = policy::page(db, q, site, w);
    let end = if k + w.limit < full.len() { k + w.limit } else { full.len() as int };
    assert(page =~= full.subrange(k, end));
    if page.len() > 0 {
        let cursor = cursor_at(page.last());
        let next = PostQuery { page_after: cursor, ..q };
        lemma_cursor_irrelevant(db, q, site, cursor);
        assert(page.last() == full[end - 1]);
        lemma_walk_from(db, next, site, w, end, (n - 1) as nat);
        assert(page + full.skip(end) =~= full.skip(k));
    } else {
        assert(full.skip(k) =~= Seq::empty());
    }
}

/// A client who goes forward page by page from the start gets the whole listing: each post once, in
/// order, however large the pages are.
pub proof fn law_walk_complete(
    db: &Database,
    q: PostQuery<'_>,
    site: Site,
    w: Window,
    n: nat,
)
    requires
        db.wf(),
        q.saved_only != Some(true),
        q.page_back != Some(true),
        q.page_after is None,
        q.page_before_or_equal is None,
        w.limit > 0,
        w.offset == 0,
        n > listing(db, q, site).len(),
    ensures
        walk(db, q, site, w, n) == listing(db, q, site),
{
    lemma_walk_from(db, q, site, w, 0, n);
    assert(listing(db, q, site).skip(0) =~= listing(db, q, site));
}

/// What a walk back from the `k`th post yields is the listing up to it.
proof fn lemma_walk_back_from(
    db: &Database,
    q: PostQuery<'_>,
    site: Site,
    w: Window,
    k: int,
    n: nat,
)
    requires
        db.wf(),
        q.saved_only != Some(true),
        q.page_back == Some(true),
        q.page_before_or_equal is None,
        w.limit > 0,
        w.offset == 0,
        0 <= k <= listing(db, q, site).len(),
        q.page_after == (if k == listing(db, q, site).len() {
            None
        } else {
            cursor_at(listing(db, q, site)[k])
        }),
        n > k,
    ensures
        walk_back(db, q, site, w, n) == listing(db, q, site).take(k),
    decreases n,
{
    let full = listing(db, q, site);
    law_page_before(db, q, site, w, k);
    let page = policy::page(db, q, site, w);
    let start = if w.limit < k { k - w.limit } else { 0 };
    assert(page =~= full.subrange(start, k));
    if page.len() > 0 {
        let cursor = cursor_at(page.first());
        let next = PostQuery { page_after: cursor, ..q };
        lemma_cursor_irrelevant(db, q, site, cursor);
        assert(page.first() == full[start]);
        lemma_walk_back_from(db, next, site, w, start, (n - 1) as nat);
        assert(full.take(start) + page =~= full.take(k));
    } else {
        assert(full.take(k) =~= Seq::empty());
    }
}

/// A client who goes back page by page from the end gets the whole listing too, in the same order
/// as one who goes forward.
pub proof fn law_walk_back_complete(
    db: &Database,
    q: PostQuery<'_>,
    site: Site,
    w: Window,
    n: nat,
)
    requires
        db.wf(),
        q.saved_only != Some(true),
        q.page_back == Some(true),
        q.page_after is None,
        q.page_before_or_equal is None,
        w.limit > 0,
        w.offset == 0,
        n > listing(db, q, site).len(),
    ensures
        walk_back(db, q, site, w, n) == listing(db, q, site),
{
    let full = listing(db, q, site);
    lemma_walk_back_from(db, q, site, w, full.len() as int, n);
    assert(full.take(full.len() as int) =~= full);
}

/// Every post on a page is one that the query lists, and lies within the cursors of the query.
pub proof fn law_page_listed(db: &Database, q: PostQuery<'_>, site: Site, w: Window, i: int)
    requires
        db.wf(),
        0 <= i < policy::page(db, q, site, w).len(),
    ensures
        db.has_candidate(
            policy::person_or_nobody(q.local_user),
            policy::page(db, q, site, w)[i],
        ),
        policy::listed(db, policy::page(db, q, site, w)[i], q, site),
        policy::layout(q, w).within(policy::page(db, q, site, w)[i]),
{
    let l = policy::layout(q, w);
    lemma_ranked(l, db, q, site);
    let ranked = l.ranking(policy::rule(db, q, site));
    assert(ranked.contains(policy::page(db, q, site, w)[i]));
}

/// A page holds at most as many posts as were asked for.
pub proof fn law_page_size(db: &Database, q: PostQuery<'_>, site: Site, w: Window)
    ensures
        policy::page(db, q, site, w).len() <= w.limit,
{
}

/// The posts of a page stand in the order of the keys, whether the client goes forward or back.
/// Saved posts are left out: the time they were saved comes before the keys.
pub proof fn law_page_in_order(
    db: &Database,
    q: PostQuery<'_>,
    site: Site,
    w: Window,
    i: int,
    j: int,
)
    requires
        db.wf(),
        q.saved_only != Some(true),
        0 <= i < j < policy::page(db, q, site, w).len(),
    ensures
        order::beats(
            policy::sort_keys(q),
            *policy::page(db, q, site, w)[i].counts,
            *policy::page(db, q, site, w)[j].counts,
        ),
{
    let l = policy::layout(q, w);
    lemma_ranked(l, db, q, site);
    let ranked = l.ranking(policy::rule(db, q, site));
    let wanted = plan::window(ranked, w.offset as int, w.limit as int);
    let start = if w.offset < ranked.len() { w.offset as int } else { ranked.len() as int };
    if l.from_end {
        let n = wanted.len();
        assert(policy::page(db, q, site, w)[i] == wanted[n - 1 - i]);
        assert(policy::page(db, q, site, w)[j] == wanted[n - 1 - j]);
        assert(l.ahead(ranked[start + n - 1 - j], ranked[start + n - 1 - i]));
    } else {
        assert(l.ahead(ranked[start + i], ranked[start + j]));
    }
}

/// Featured posts come first: on a page, no post that is not featured precedes one that is.
pub proof fn law_featured_first(
    db: &Database,
    q: PostQuery<'_>,
    site: Site,
    w: Window,
    i: int,
    j: int,
)
    requires
        db.wf(),
        q.saved_only != Some(true),
        0 <= i < j < policy::page(db, q, site, w).len(),
    ensures
        if q.community_id is None || q.community_id_just_for_prefetch {
            policy::page(db, q, site, w)[j].counts.featured_local ==> policy::page(
                db,
                q,
                site,
                w,
            )[i].counts.featured_local
        } else {
            policy::page(db, q, site, w)[j].counts.featured_community ==> policy::page(
                db,
                q,
                site,
                w,
            )[i].counts.featured_community
        },
{
    law_page_in_order(db, q, site, w, i, j);
    let keys = policy::sort_keys(q);
    let a = *policy::page(db, q, site, w)[i].counts;
    let b = *policy::page(db, q, site, w)[j].counts;
    let k = choose|k: int| order::decides(keys, a, b, k);
    if k > 0 {
        assert(keys[0].value(a) == keys[0].value(b));
    }
}

/// Going forward, saved posts are ordered by the time they were saved, the latest first.
pub proof fn law_saved_order(
    db: &Database,
    q: PostQuery<'_>,
    site: Site,
    w: Window,
    i: int,
    j: int,
)
    requires
        db.wf(),
        q.saved_only == Some(true),
        q.page_back != Some(true),
        0 <= i < j < policy::page(db, q, site, w).len(),
    ensures
        policy::page(db, q, site, w)[i].saved matches Some(a) && policy::page(
            db,
            q,
            site,
            w,
        )[j].saved matches Some(b) && a.published >= b.published,
{
    let l = policy::layout(q, w);
    lemma_ranked(l, db, q, site);
    let ranked = l.ranking(policy::rule(db, q, site));
    law_page_listed(db, q, site, w, i);
    law_page_listed(db, q, site, w, j);
    assert(l.ahead(ranked[w.offset + i], ranked[w.offset + j]));
}

/// Whatever is listed for a viewer can be read by that viewer, as one who moderates if they are an
/// admin, and the row that is read is the one that is listed.
pub proof fn law_listed_is_readable(
    db: &Database,
    q: PostQuery<'_>,
    site: Site,
    c: Candidate<'_>,
    d: Candidate<'_>,
)
    requires
        db.wf(),
        db.has_candidate(policy::person_or_nobody(q.local_user), c),
        policy::listed(db, c, q, site),
    ensures
        read::reads(
            db,
            c.counts.post_id,
            q.local_user,
            policy::is_admin(q.local_user),
            c,
        ),
        read::reads(
            db,
            c.counts.post_id,
            q.local_user,
            policy::is_admin(q.local_user),
            d,
        ) ==> c == d,
{
    if db.has_candidate(policy::person_or_nobody(q.local_user), d) && d.counts.post_id
        == c.counts.post_id {
        lemma_one_row_per_post(db, policy::person_or_nobody(q.local_user), c, d);
    }
}

/// At most one row answers a request to read a post.
pub proof fn law_read_unique(
    db: &Database,
    id: PostId,
    user: Option<&LocalUser>,
    is_mod_or_admin: bool,
    c: Candidate<'_>,
    d: Candidate<'_>,
)
    requires
        db.wf(),
        read::reads(db, id, user, is_mod_or_admin, c),
        read::reads(db, id, user, is_mod_or_admin, d),
    ensures
        c == d,
{
    lemma_one_row_per_post(db, policy::person_or_nobody(user), c, d);
}

/// Users can read their own posts, removed or deleted though they be, outside of private
/// communities that have not accepted them.
pub proof fn law_own_posts_readable(
    db: &Database,
    c: Candidate<'_>,
    user: &LocalUser,
    is_mod_or_admin: bool,
)
    requires
        c.post.creator_id == user.person_id,
        c.community.visibility != CommunityVisibility::Private || db.follows_accepted(
            user.person_id,
            c.counts.community_id,
        ),
    ensures
        policy::readable(db, c, Some(user), is_mod_or_admin),
{
}

/// Users who moderate can read everything.
pub proof fn law_moderators_read_all(db: &Database, c: Candidate<'_>, user: &LocalUser)
    ensures
        policy::readable(db, c, Some(user), true),
{
}

/// Deleted posts are shown to their creator alone, and so are posts that are yet to be published.
pub proof fn law_deleted_for_creator(
    db: &Database,
    q: PostQuery<'_>,
    site: Site,
    w: Window,
    i: int,
)
    requires
        db.wf(),
        0 <= i < policy::page(db, q, site, w).len(),
    ensures
        ({
            let post = policy::page(db, q, site, w)[i].post;
            post.deleted || post.scheduled_publish_time is Some ==> policy::person_of(q.local_user)
                == Some(post.creator_id)
        }),
{
    law_page_listed(db, q, site, w, i);
}

/// Removed posts, and posts of removed communities, are shown to admins on the profile of their
/// creator, and nowhere else.
pub proof fn law_removed_for_admins(
    db: &Database,
    q: PostQuery<'_>,
    site: Site,
    w: Window,
    i: int,
)
    requires
        db.wf(),
        0 <= i < policy::page(db, q, site, w).len(),
        policy::page(db, q, site, w)[i].post.removed || policy::page(
            db,
            q,
            site,
            w,
        )[i].community.removed,
    ensures
        policy::is_admin(q.local_user),
        q.creator_id == Some(policy::page(db, q, site, w)[i].counts.creator_id),
{
    law_page_listed(db, q, site, w, i);
}

/// Posts of private communities are shown to accepted followers and to admins; to one who is not
/// logged in, only posts of public communities are shown.
pub proof fn law_private_for_followers(
    db: &Database,
    q: PostQuery<'_>,
    site: Site,
    w: Window,
    i: int,
)
    requires
        db.wf(),
        0 <= i < policy::page(db, q, site, w).len(),
    ensures
        ({
            let c = policy::page(db, q, site, w)[i];
            match q.local_user {
                Some(u) => c.community.visibility == CommunityVisibility::Private ==> u.admin
                    || db.follows_accepted(u.person_id, c.counts.community_id),
                None => c.community.visibility == CommunityVisibility::Public,
            }
        }),
{
    law_page_listed(db, q, site, w, i);
}

/// Outside of the moderator view, a user is shown nothing by persons, from communities or from
/// instances that they block.
pub proof fn law_blocks_respected(
    db: &Database,
    q: PostQuery<'_>,
    site: Site,
    w: Window,
    u: &LocalUser,
    i: int,
)
    requires
        db.wf(),
        q.local_user == Some(u),
        policy::listing_type(q, site) != ListingType::ModeratorView,
        0 <= i < policy::page(db, q, site, w).len(),
    ensures
        ({
            let counts = policy::page(db, q, site, w)[i].counts;
            &&& !db.blocks_person(u.person_id, counts.creator_id)
            &&& !db.blocks_community(u.person_id, counts.community_id)
            &&& !db.blocks_instance(u.person_id, counts.instance_id)
        }),
{
    law_page_listed(db, q, site, w, i);
}

/// Outside of the moderator view, a user is shown posts in the languages they read, and no others.
pub proof fn law_languages_respected(
    db: &Database,
    q: PostQuery<'_>,
    site: Site,
    w: Window,
    u: &LocalUser,
    i: int,
)
    requires
        db.wf(),
        q.local_user == Some(u),
        policy::listing_type(q, site) != ListingType::ModeratorView,
        0 <= i < policy::page(db, q, site, w).len(),
    ensures
        db.reads_language(u.id, policy::page(db, q, site, w)[i].post.language_id),
{
    law_page_listed(db, q, site, w, i);
}

/// Outside of the moderator view, posts of hidden communities are shown to those who follow them,
/// and to nobody else.
pub proof fn law_hidden_communities(
    db: &Database,
    q: PostQuery<'_>,
    site: Site,
    w: Window,
    i: int,
)
    requires
        db.wf(),
        policy::listing_type(q, site) != ListingType::ModeratorView,
        0 <= i < policy::page(db, q, site, w).len(),
        policy::page(db, q, site, w)[i].community.hidden,
    ensures
        db.follows(
            policy::person_or_nobody(q.local_user),
            policy::page(db, q, site, w)[i].counts.community_id,
        ),
{
    law_page_listed(db, q, site, w, i);
}

/// A list of liked posts holds posts that the user likes and that others wrote, and so does a list
/// of disliked posts with those that the user dislikes.
pub proof fn law_voted_posts(
    db: &Database,
    q: PostQuery<'_>,
    site: Site,
    w: Window,
    u: &LocalUser,
    i: int,
)
    requires
        db.wf(),
        q.local_user == Some(u),
        q.liked_only == Some(true) || q.disliked_only == Some(true),
        0 <= i < policy::page(db, q, site, w).len(),
    ensures
        ({
            let counts = policy::page(db, q, site, w)[i].counts;
            let vote: i16 = if q.liked_only == Some(true) { 1 } else { (-1) as i16 };
            &&& counts.creator_id != u.person_id
            &&& db.vote(u.person_id, counts.post_id) == Some(vote)
        }),
{
    law_page_listed(db, q, site, w, i);
}

/// A list of saved posts holds posts that the viewer has saved, and no others.
pub proof fn law_saved_posts(db: &Database, q: PostQuery<'_>, site: Site, w: Window, i: int)
    requires
        db.wf(),
        q.saved_only == Some(true),
        0 <= i < policy::page(db, q, site, w).len(),
    ensures
        scan::any(
            db.post_saveds@,
            PostSaved::pair(
                policy::page(db, q, site, w)[i].counts.post_id,
                policy::person_or_nobody(q.local_user),
            ),
        ),
{
    law_page_listed(db, q, site, w, i);
}

/// Away from profiles, a user is shown no post that they have hidden unless the query asks for
/// such posts, and no post that they have read if they do not want to see those, other than among
/// saved posts.
pub proof fn law_read_and_hidden_posts(
    db: &Database,
    q: PostQuery<'_>,
    site: Site,
    w: Window,
    u: &LocalUser,
    i: int,
)
    requires
        db.wf(),
        q.local_user == Some(u),
        q.creator_id is None,
        0 <= i < policy::page(db, q, site, w).len(),
    ensures
        ({
            let id = policy::page(db, q, site, w)[i].counts.post_id;
            &&& q.show_hidden != Some(true) ==> !db.has_hidden(u.person_id, id)
            &&& !policy::shows_read(q, *u) && q.saved_only != Some(true) ==> !db.has_read(
                u.person_id,
                id,
            )
        }),
{
    law_page_listed(db, q, site, w, i);
}

/// Where no row belongs to the stand-in for a visitor, the stand-in follows and moderates nothing.
proof fn lemma_nobody_takes_part(db: &Database, id: CommunityId)
    requires
        db.lacks_nobody(),
    ensures
        !db.follows(plan::nobody(), id),
        !db.moderates(plan::nobody(), id),
{
    let follower = CommunityFollower::pair(id, plan::nobody());
    assert forall|i: int| 0 <= i < db.community_followers@.len() implies !follower(
        #[trigger] db.community_followers@[i],
    ) by {
        assert(!(|r: CommunityFollower| r.person_id == plan::nobody())(
            db.community_followers@[i],
        ));
    }
    let moderator = CommunityPerson::pair(id, plan::nobody());
    assert forall|i: int| 0 <= i < db.community_moderators@.len() implies !moderator(
        #[trigger] db.community_moderators@[i],
    ) by {
        assert(!(|r: CommunityPerson| r.person_id == plan::nobody())(db.community_moderators@[i]));
    }
}

/// To a visitor no post is saved, where no row belongs to the stand-in for visitors.
pub proof fn law_visitor_saves_nothing(db: &Database, c: Candidate<'_>, view: PostView<'_>)
    requires
        db.lacks_nobody(),
        db.has_candidate(plan::nobody(), c),
        db.shows(None, c, view),
    ensures
        c.saved is None,
        !view.saved,
{
    let p = PostSaved::pair(c.counts.post_id, plan::nobody());
    assert forall|i: int| 0 <= i < db.post_saveds@.len() implies !p(
        #[trigger] db.post_saveds@[i],
    ) by {
        assert(!(|r: PostSaved| r.person_id == plan::nobody())(db.post_saveds@[i]));
    }
}

/// A visitor has no saved posts, follows nothing and moderates nothing: the lists of such posts are
/// empty, where no row belongs to the stand-in for visitors.
pub proof fn law_visitor_lists_empty(db: &Database, q: PostQuery<'_>, site: Site, w: Window)
    requires
        db.wf(),
        db.lacks_nobody(),
        q.local_user is None,
        q.saved_only == Some(true) || policy::listing_type(q, site) == ListingType::Subscribed
            || policy::listing_type(q, site) == ListingType::ModeratorView,
    ensures
        policy::page(db, q, site, w) == Seq::<Candidate<'_>>::empty(),
{
    let page = policy::page(db, q, site, w);
    if page.len() > 0 {
        law_page_listed(db, q, site, w, 0);
        lemma_nobody_takes_part(db, page[0].counts.community_id);
        lemma_nobody_takes_part(db, page[0].post.community_id);
        if q.saved_only == Some(true) {
            law_saved_posts(db, q, site, w, 0);
            let p = PostSaved::pair(page[0].counts.post_id, plan::nobody());
            let i = choose|i: int|
                0 <= i < db.post_saveds@.len() && p(#[trigger] db.post_saveds@[i]);
            assert((|r: PostSaved| r.person_id == plan::nobody())(db.post_saveds@[i]));
        }
    }
    assert(page =~= Seq::<Candidate<'_>>::empty());
}

/// A visitor is shown no post of a hidden community, where no row belongs to the stand-in for
/// visitors.
pub proof fn law_visitor_sees_nothing_hidden(
    db: &Database,
    q: PostQuery<'_>,
    site: Site,
    w: Window,
    i: int,
)
    requires
        db.wf(),
        db.lacks_nobody(),
        q.local_user is None,
        0 <= i < policy::page(db, q, site, w).len(),
    ensures
        !policy::page(db, q, site, w)[i].community.hidden,
{
    let c = policy::page(db, q, site, w)[i];
    lemma_nobody_takes_part(db, c.counts.community_id);
    lemma_nobody_takes_part(db, c.post.community_id);
    law_page_listed(db, q, site, w, i);
}

/// A visitor who does not moderate reads nothing that is removed or deleted, where no row belongs
/// to the stand-in for visitors.
pub proof fn law_visitor_reads_nothing_gone(db: &Database, id: PostId, c: Candidate<'_>)
    requires
        db.lacks_nobody(),
        read::reads(db, id, None, false, c),
    ensures
        !c.post.removed,
        !c.post.deleted,
        !c.community.removed,
        !c.community.deleted,
{
    let p = Post::has_id(c.counts.post_id);
    assert(scan::any(db.posts@, p));
    let i = choose|i: int| 0 <= i < db.posts@.len() && p(#[trigger] db.posts@[i]);
    assert(!(|r: Post| r.creator_id == plan::nobody())(db.posts@[i]));
}

/// Reading a token gives back the post it was made for. Negative ids are left out: their bit
/// pattern reads as a number that is too large.
pub proof fn law_token_round_trip(id: PostId)
    requires
        0 <= id.0,
    ensures
        cursor::token_post(cursor::token(id)) == Some(id),
{
    hex::lemma_parse_digits(id.0);
    assert(cursor::token(id).skip(1) =~= hex::digits(hex::bits(id.0)));
}

/// A cursor taken from a row of the join leads back to the place of that row.
pub proof fn law_cursor_leads_back(db: &Database, who: PersonId, c: Candidate<'_>)
    requires
        db.wf(),
        db.has_candidate(who, c),
        0 <= c.counts.post_id.0,
    ensures
        cursor::token_post(cursor::token(c.counts.post_id)) == Some(c.counts.post_id),
        db.counts_of(c.counts.post_id) == Some(*c.counts),
{
    law_token_round_trip(c.counts.post_id);
    let p = PostAggregates::of(c.counts.post_id);
    let k = choose|k: int|
        0 <= k < db.post_aggregates@.len() && db.joined(who, #[trigger] db.post_aggregates@[k])
            == Some(c);
    assert(p(db.post_aggregates@[k]));
    let m = choose|m: int|
        0 <= m < db.post_aggregates@.len() && p(#[trigger] db.post_aggregates@[m]);
    assert(db.post_aggregates@[m].post_id == db.post_aggregates@[k].post_id);
    assert(m == k) by {
        if m < k {
            assert(db.post_aggregates@[m].post_id != db.post_aggregates@[k].post_id);
        } else if k < m {
            assert(db.post_aggregates@[k].post_id != db.post_aggregates@[m].post_id);
        }
    }
}

} // verus!
