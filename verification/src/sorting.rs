//! In which order the posts of a page stand, in terms of their counts.

use vstd::prelude::*;

use crate::laws;
use crate::order;
use crate::order::SortKey;
use crate::plan;
use crate::policy;
use crate::query::{PostQuery, Site, Window};
use crate::tables::{Database, Interval, PostAggregates};
use crate::types::PostSortType;

verus! {

/// The value by which a key orders a post is the count, the rank, the time or the mark that the key
/// is named after; the oldest comes first by the time turned round.
pub proof fn law_key_values(a: PostAggregates)
    ensures
        a.featured_local ==> SortKey::FeaturedLocal.value(a) == 1,
        !a.featured_local ==> SortKey::FeaturedLocal.value(a) == 0,
        a.featured_community ==> SortKey::FeaturedCommunity.value(a) == 1,
        !a.featured_community ==> SortKey::FeaturedCommunity.value(a) == 0,
        SortKey::HotRankActive.value(a) == a.hot_rank_active,
        SortKey::HotRank.value(a) == a.hot_rank,
        SortKey::ScaledRank.value(a) == a.scaled_rank,
        SortKey::ControversyRank.value(a) == a.controversy_rank,
        SortKey::Published.value(a) == a.published,
        SortKey::ReversePublished.value(a) + a.published == 0,
        SortKey::NewestCommentTime.value(a) == a.newest_comment_time,
        SortKey::Comments.value(a) == a.comments,
        SortKey::Score.value(a) == a.score,
        SortKey::PostId.value(a) == a.post_id.0,
{
}

/// The main key of a sort, and how far back the sort looks. A query that names no sort is sorted by
/// the hot rank.
pub proof fn law_sorts(sort: PostSortType, q: PostQuery<'_>)
    ensures
        policy::sort_key(sort) == (match sort {
            PostSortType::Active => SortKey::HotRankActive,
            PostSortType::Hot => SortKey::HotRank,
            PostSortType::Scaled => SortKey::ScaledRank,
            PostSortType::Controversial => SortKey::ControversyRank,
            PostSortType::New => SortKey::Published,
            PostSortType::Old => SortKey::ReversePublished,
            PostSortType::NewComments => SortKey::NewestCommentTime,
            PostSortType::MostComments => SortKey::Comments,
            PostSortType::TopAll => SortKey::Score,
            PostSortType::TopYear => SortKey::Score,
            PostSortType::TopMonth => SortKey::Score,
            PostSortType::TopWeek => SortKey::Score,
            PostSortType::TopDay => SortKey::Score,
            PostSortType::TopHour => SortKey::Score,
            PostSortType::TopSixHour => SortKey::Score,
            PostSortType::TopTwelveHour => SortKey::Score,
            PostSortType::TopThreeMonths => SortKey::Score,
            PostSortType::TopSixMonths => SortKey::Score,
            PostSortType::TopNineMonths => SortKey::Score,
        }),
        policy::period(sort) == (match sort {
            PostSortType::TopYear => Some(Interval { microseconds: 0, days: 0, months: 12 }),
            PostSortType::TopNineMonths => Some(Interval { microseconds: 0, days: 0, months: 9 }),
            PostSortType::TopSixMonths => Some(Interval { microseconds: 0, days: 0, months: 6 }),
            PostSortType::TopThreeMonths => Some(Interval { microseconds: 0, days: 0, months: 3 }),
            PostSortType::TopMonth => Some(Interval { microseconds: 0, days: 0, months: 1 }),
            PostSortType::TopWeek => Some(Interval { microseconds: 0, days: 7, months: 0 }),
            PostSortType::TopDay => Some(Interval { microseconds: 0, days: 1, months: 0 }),
            PostSortType::TopTwelveHour => Some(
                Interval { microseconds: 43_200_000_000, days: 0, months: 0 },
            ),
            PostSortType::TopSixHour => Some(
                Interval { microseconds: 21_600_000_000, days: 0, months: 0 },
            ),
            PostSortType::TopHour => Some(
                Interval { microseconds: 3_600_000_000, days: 0, months: 0 },
            ),
            _ => None,
        }),
        q.sort is Some ==> policy::sort_type(q) == q.sort->0,
        q.sort is None ==> policy::sort_type(q) == PostSortType::Hot,
{
}

/// Keys are compared in turn: the first decides where it tells two posts apart, the larger value
/// coming first, and the others decide where it does not. Where there are none, posts are level.
pub proof fn law_keys_in_turn(keys: Seq<SortKey>, a: PostAggregates, b: PostAggregates)
    ensures
        keys.len() == 0 ==> !order::beats(keys, a, b) && order::ties(keys, a, b),
        keys.len() > 0 ==> {
            &&& order::beats(keys, a, b) <==> keys[0].value(a) > keys[0].value(b) || (
            keys[0].value(a) == keys[0].value(b) && order::beats(keys.skip(1), a, b))
            &&& order::ties(keys, a, b) <==> keys[0].value(a) == keys[0].value(b) && order::ties(
                keys.skip(1),
                a,
                b,
            )
        },
{
    if keys.len() > 0 {
        let rest = keys.skip(1);
        if order::beats(keys, a, b) {
            let k = choose|k: int| order::decides(keys, a, b, k);
            if k > 0 {
                assert(keys[0].value(a) == keys[0].value(b));
                assert forall|j: int| 0 <= j < k - 1 implies (#[trigger] rest[j]).value(a)
                    == rest[j].value(b) by {
                    assert(keys[j + 1].value(a) == keys[j + 1].value(b));
                }
                assert(order::decides(rest, a, b, k - 1));
            }
        }
        if keys[0].value(a) > keys[0].value(b) {
            assert(order::decides(keys, a, b, 0));
        }
        if keys[0].value(a) == keys[0].value(b) && order::beats(rest, a, b) {
            let k = choose|k: int| order::decides(rest, a, b, k);
            assert forall|j: int| 0 <= j < k + 1 implies (#[trigger] keys[j]).value(a)
                == keys[j].value(b) by {
                if j > 0 {
                    assert(rest[j - 1].value(a) == rest[j - 1].value(b));
                }
            }
            assert(order::decides(keys, a, b, k + 1));
        }
        if order::ties(keys, a, b) {
            assert(keys[0].value(a) == keys[0].value(b));
            assert forall|j: int| 0 <= j < rest.len() implies (#[trigger] rest[j]).value(a)
                == rest[j].value(b) by {
                assert(keys[j + 1].value(a) == keys[j + 1].value(b));
            }
        }
        if keys[0].value(a) == keys[0].value(b) && order::ties(rest, a, b) {
            assert forall|j: int| 0 <= j < keys.len() implies (#[trigger] keys[j]).value(a)
                == keys[j].value(b) by {
                if j > 0 {
                    assert(rest[j - 1].value(a) == rest[j - 1].value(b));
                }
            }
        }
    }
}

/// The posts of a page stand in the order of the keys, whichever way the client goes; those of a
/// page of saved posts do where they were saved at the same time.
proof fn lemma_page_in_order(
    db: &Database,
    q: PostQuery<'_>,
    site: Site,
    w: Window,
    i: int,
    j: int,
)
    requires
        db.wf(),
        0 <= i < j < policy::page(db, q, site, w).len(),
        q.saved_only == Some(true) ==> plan::saved_rank(policy::page(db, q, site, w)[i])
            == plan::saved_rank(policy::page(db, q, site, w)[j]),
    ensures
        order::beats(
            policy::sort_keys(q),
            *policy::page(db, q, site, w)[i].counts,
            *policy::page(db, q, site, w)[j].counts,
        ),
{
    let l = policy::layout(q, w);
    laws::lemma_ranked(l, db, q, site);
    let ranked = l.ranking(policy::rule(db, q, site));
    let wanted = plan::window(ranked, w.offset as int, w.limit as int);
    let start = if w.offset < ranked.len() { w.offset as int } else { ranked.len() as int };
    if l.from_end {
        let n = wanted.len();
        assert(policy::page(db, q, site, w)[i] == wanted[n - 1 - i]);
        assert(policy::page(db, q, site, w)[j] == wanted[n - 1 - j]);
        assert(l.ahead(ranked[start + n - 1 - j], ranked[start + n - 1 - i]));
    } else {
        assert(l.ahead(ranked[start + i], ranked[start + j]));
    }
}

/// Three keys, one after the other.
proof fn lemma_three_keys(keys: Seq<SortKey>, a: PostAggregates, b: PostAggregates)
    requires
        keys.len() == 3,
        order::beats(keys, a, b),
        keys[0].value(a) == keys[0].value(b),
    ensures
        keys[1].value(a) > keys[1].value(b) || (keys[1].value(a) == keys[1].value(b)
            && keys[2].value(a) > keys[2].value(b)),
{
    let k = choose|k: int| order::decides(keys, a, b, k);
    if k > 1 {
        assert(keys[1].value(a) == keys[1].value(b));
    }
}

/// Four keys, one after the other.
proof fn lemma_four_keys(keys: Seq<SortKey>, a: PostAggregates, b: PostAggregates)
    requires
        keys.len() == 4,
        order::beats(keys, a, b),
        keys[0].value(a) == keys[0].value(b),
    ensures
        keys[1].value(a) > keys[1].value(b) || (keys[1].value(a) == keys[1].value(b) && (
        keys[2].value(a) > keys[2].value(b) || (keys[2].value(a) == keys[2].value(b)
            && keys[3].value(a) > keys[3].value(b)))),
{
    let k = choose|k: int| order::decides(keys, a, b, k);
    if k > 1 {
        assert(keys[1].value(a) == keys[1].value(b));
    }
    if k > 2 {
        assert(keys[2].value(a) == keys[2].value(b));
    }
}

/// By the hot sort, which is the sort of a query that names none, the higher hot rank comes first,
/// where they are equally featured and, if they are saved posts, were saved at the same time. Ties
/// fall to the newest, and then to the larger id.
pub proof fn law_order_hot(
    db: &Database,
    q: PostQuery<'_>,
    site: Site,
    w: Window,
    i: int,
    j: int,
)
    requires
        db.wf(),
        0 <= i < j < policy::page(db, q, site, w).len(),
        q.sort is None || q.sort == Some(PostSortType::Hot),
        ({
            let a = policy::page(db, q, site, w)[i];
            let b = policy::page(db, q, site, w)[j];
            &&& if q.community_id is None || q.community_id_just_for_prefetch {
                a.counts.featured_local == b.counts.featured_local
            } else {
                a.counts.featured_community == b.counts.featured_community
            }
            &&& q.saved_only == Some(true) ==> a.saved is Some && b.saved is Some
                && a.saved->0.published == b.saved->0.published
        }),
    ensures
        ({
            let a = *policy::page(db, q, site, w)[i].counts;
            let b = *policy::page(db, q, site, w)[j].counts;
            ||| a.hot_rank > b.hot_rank
            ||| a.hot_rank == b.hot_rank && a.published > b.published
            ||| a.hot_rank == b.hot_rank && a.published == b.published && a.post_id.0 > b.post_id.0
        }),
{
    lemma_page_in_order(db, q, site, w, i, j);
    let a = *policy::page(db, q, site, w)[i].counts;
    let b = *policy::page(db, q, site, w)[j].counts;
    lemma_four_keys(policy::sort_keys(q), a, b);
}

/// By the active sort, the higher rank of activity comes first,
/// where they are equally featured and, if they are saved posts, were saved at the same time. Ties
/// fall to the newest, and then to the larger id.
pub proof fn law_order_active(
    db: &Database,
    q: PostQuery<'_>,
    site: Site,
    w: Window,
    i: int,
    j: int,
)
    requires
        db.wf(),
        0 <= i < j < policy::page(db, q, site, w).len(),
        q.sort == Some(PostSortType::Active),
        ({
            let a = policy::page(db, q, site, w)[i];
            let b = policy::page(db, q, site, w)[j];
            &&& if q.community_id is None || q.community_id_just_for_prefetch {
                a.counts.featured_local == b.counts.featured_local
            } else {
                a.counts.featured_community == b.counts.featured_community
            }
            &&& q.saved_only == Some(true) ==> a.saved is Some && b.saved is Some
                && a.saved->0.published == b.saved->0.published
        }),
    ensures
        ({
            let a = *policy::page(db, q, site, w)[i].counts;
            let b = *policy::page(db, q, site, w)[j].counts;
            ||| a.hot_rank_active > b.hot_rank_active
            ||| a.hot_rank_active == b.hot_rank_active && a.published > b.published
            ||| a.hot_rank_active == b.hot_rank_active && a.published == b.published
                && a.post_id.0 > b.post_id.0
        }),
{
    lemma_page_in_order(db, q, site, w, i, j);
    let a = *policy::page(db, q, site, w)[i].counts;
    let b = *policy::page(db, q, site, w)[j].counts;
    lemma_four_keys(policy::sort_keys(q), a, b);
}

/// By the scaled sort, the higher scaled rank comes first,
/// where they are equally featured and, if they are saved posts, were saved at the same time. Ties
/// fall to the newest, and then to the larger id.
pub proof fn law_order_scaled(
    db: &Database,
    q: PostQuery<'_>,
    site: Site,
    w: Window,
    i: int,
    j: int,
)
    requires
        db.wf(),
        0 <= i < j < policy::page(db, q, site, w).len(),
        q.sort == Some(PostSortType::Scaled),
        ({
            let a = policy::page(db, q, site, w)[i];
            let b = policy::page(db, q, site, w)[j];
            &&& if q.community_id is None || q.community_id_just_for_prefetch {
                a.counts.featured_local == b.counts.featured_local
            } else {
                a.counts.featured_community == b.counts.featured_community
            }
            &&& q.saved_only == Some(true) ==> a.saved is Some && b.saved is Some
                && a.saved->0.published == b.saved->0.published
        }),
    ensures
        ({
            let a = *policy::page(db, q, site, w)[i].counts;
            let b = *policy::page(db, q, site, w)[j].counts;
            ||| a.scaled_rank > b.scaled_rank
            ||| a.scaled_rank == b.scaled_rank && a.published > b.published
            ||| a.scaled_rank == b.scaled_rank && a.published == b.published
                && a.post_id.0 > b.post_id.0
        }),
{
    lemma_page_in_order(db, q, site, w, i, j);
    let a = *policy::page(db, q, site, w)[i].counts;
    let b = *policy::page(db, q, site, w)[j].counts;
    lemma_four_keys(policy::sort_keys(q), a, b);
}

/// By the controversial sort, the higher rank of controversy comes first,
/// where they are equally featured and, if they are saved posts, were saved at the same time. Ties
/// fall to the newest, and then to the larger id.
pub proof fn law_order_controversial(
    db: &Database,
    q: PostQuery<'_>,
    site: Site,
    w: Window,
    i: int,
    j: int,
)
    requires
        db.wf(),
        0 <= i < j < policy::page(db, q, site, w).len(),
        q.sort == Some(PostSortType::Controversial),
        ({
            let a = policy::page(db, q, site, w)[i];
            let b = policy::page(db, q, site, w)[j];
            &&& if q.community_id is None || q.community_id_just_for_prefetch {
                a.counts.featured_local == b.counts.featured_local
            } else {
                a.counts.featured_community == b.counts.featured_community
            }
            &&& q.saved_only == Some(true) ==> a.saved is Some && b.saved is Some
                && a.saved->0.published == b.saved->0.published
        }),
    ensures
        ({
            let a = *policy::page(db, q, site, w)[i].counts;
            let b = *policy::page(db, q, site, w)[j].counts;
            ||| a.controversy_rank > b.controversy_rank
            ||| a.controversy_rank == b.controversy_rank && a.published > b.published
            ||| a.controversy_rank == b.controversy_rank && a.published == b.published
                && a.post_id.0 > b.post_id.0
        }),
{
    lemma_page_in_order(db, q, site, w, i, j);
    let a = *policy::page(db, q, site, w)[i].counts;
    let b = *policy::page(db, q, site, w)[j].counts;
    lemma_four_keys(policy::sort_keys(q), a, b);
}

/// By the sort for most comments, the post with more comments comes first,
/// where they are equally featured and, if they are saved posts, were saved at the same time. Ties
/// fall to the newest, and then to the larger id.
pub proof fn law_order_most_comments(
    db: &Database,
    q: PostQuery<'_>,
    site: Site,
    w: Window,
    i: int,
    j: int,
)
    requires
        db.wf(),
        0 <= i < j < policy::page(db, q, site, w).len(),
        q.sort == Some(PostSortType::MostComments),
        ({
            let a = policy::page(db, q, site, w)[i];
            let b = policy::page(db, q, site, w)[j];
            &&& if q.community_id is None || q.community_id_just_for_prefetch {
                a.counts.featured_local == b.counts.featured_local
            } else {
                a.counts.featured_community == b.counts.featured_community
            }
            &&& q.saved_only == Some(true) ==> a.saved is Some && b.saved is Some
                && a.saved->0.published == b.saved->0.published
        }),
    ensures
        ({
            let a = *policy::page(db, q, site, w)[i].counts;
            let b = *policy::page(db, q, site, w)[j].counts;
            ||| a.comments > b.comments
            ||| a.comments == b.comments && a.published > b.published
            ||| a.comments == b.comments && a.published == b.published && a.post_id.0 > b.post_id.0
        }),
{
    lemma_page_in_order(db, q, site, w, i, j);
    let a = *policy::page(db, q, site, w)[i].counts;
    let b = *policy::page(db, q, site, w)[j].counts;
    lemma_four_keys(policy::sort_keys(q), a, b);
}

/// By every top sort, whatever its period, the higher score comes first,
/// where they are equally featured and, if they are saved posts, were saved at the same time. Ties
/// fall to the newest, and then to the larger id.
pub proof fn law_order_top(
    db: &Database,
    q: PostQuery<'_>,
    site: Site,
    w: Window,
    i: int,
    j: int,
)
    requires
        db.wf(),
        0 <= i < j < policy::page(db, q, site, w).len(),
        q.sort == Some(PostSortType::TopAll)
            || q.sort == Some(PostSortType::TopYear)
            || q.sort == Some(PostSortType::TopNineMonths)
            || q.sort == Some(PostSortType::TopSixMonths)
            || q.sort == Some(PostSortType::TopThreeMonths)
            || q.sort == Some(PostSortType::TopMonth)
            || q.sort == Some(PostSortType::TopWeek)
            || q.sort == Some(PostSortType::TopDay)
            || q.sort == Some(PostSortType::TopTwelveHour)
            || q.sort == Some(PostSortType::TopSixHour)
            || q.sort == Some(PostSortType::TopHour),
        ({
            let a = policy::page(db, q, site, w)[i];
            let b = policy::page(db, q, site, w)[j];
            &&& if q.community_id is None || q.community_id_just_for_prefetch {
                a.counts.featured_local == b.counts.featured_local
            } else {
                a.counts.featured_community == b.counts.featured_community
            }
            &&& q.saved_only == Some(true) ==> a.saved is Some && b.saved is Some
                && a.saved->0.published == b.saved->0.published
        }),
    ensures
        ({
            let a = *policy::page(db, q, site, w)[i].counts;
            let b = *policy::page(db, q, site, w)[j].counts;
            ||| a.score > b.score
            ||| a.score == b.score && a.published > b.published
            ||| a.score == b.score && a.published == b.published && a.post_id.0 > b.post_id.0
        }),
{
    lemma_page_in_order(db, q, site, w, i, j);
    let a = *policy::page(db, q, site, w)[i].counts;
    let b = *policy::page(db, q, site, w)[j].counts;
    lemma_four_keys(policy::sort_keys(q), a, b);
}

/// By the new sort, the newer post comes first,
/// where they are equally featured and, if they are saved posts, were saved at the same time. Ties
/// fall to the larger id.
pub proof fn law_order_new(
    db: &Database,
    q: PostQuery<'_>,
    site: Site,
    w: Window,
    i: int,
    j: int,
)
    requires
        db.wf(),
        0 <= i < j < policy::page(db, q, site, w).len(),
        q.sort == Some(PostSortType::New),
        ({
            let a = policy::page(db, q, site, w)[i];
            let b = policy::page(db, q, site, w)[j];
            &&& if q.community_id is None || q.community_id_just_for_prefetch {
                a.counts.featured_local == b.counts.featured_local
            } else {
                a.counts.featured_community == b.counts.featured_community
            }
            &&& q.saved_only == Some(true) ==> a.saved is Some && b.saved is Some
                && a.saved->0.published == b.saved->0.published
        }),
    ensures
        ({
            let a = *policy::page(db, q, site, w)[i].counts;
            let b = *policy::page(db, q, site, w)[j].counts;
            ||| a.published > b.published
            ||| a.published == b.published && a.post_id.0 > b.post_id.0
        }),
{
    lemma_page_in_order(db, q, site, w, i, j);
    let a = *policy::page(db, q, site, w)[i].counts;
    let b = *policy::page(db, q, site, w)[j].counts;
    lemma_three_keys(policy::sort_keys(q), a, b);
}

/// By the old sort, the older post comes first,
/// where they are equally featured and, if they are saved posts, were saved at the same time. Ties
/// fall to the larger id.
pub proof fn law_order_old(
    db: &Database,
    q: PostQuery<'_>,
    site: Site,
    w: Window,
    i: int,
    j: int,
)
    requires
        db.wf(),
        0 <= i < j < policy::page(db, q, site, w).len(),
        q.sort == Some(PostSortType::Old),
        ({
            let a = policy::page(db, q, site, w)[i];
            let b = policy::page(db, q, site, w)[j];
            &&& if q.community_id is None || q.community_id_just_for_prefetch {
                a.counts.featured_local == b.counts.featured_local
            } else {
                a.counts.featured_community == b.counts.featured_community
            }
            &&& q.saved_only == Some(true) ==> a.saved is Some && b.saved is Some
                && a.saved->0.published == b.saved->0.published
        }),
    ensures
        ({
            let a = *policy::page(db, q, site, w)[i].counts;
            let b = *policy::page(db, q, site, w)[j].counts;
            ||| a.published < b.published
            ||| a.published == b.published && a.post_id.0 > b.post_id.0
        }),
{
    lemma_page_in_order(db, q, site, w, i, j);
    let a = *policy::page(db, q, site, w)[i].counts;
    let b = *policy::page(db, q, site, w)[j].counts;
    lemma_three_keys(policy::sort_keys(q), a, b);
}

/// By the sort for new comments, the post with the newer comment comes first,
/// where they are equally featured and, if they are saved posts, were saved at the same time. Ties
/// fall to the larger id.
pub proof fn law_order_new_comments(
    db: &Database,
    q: PostQuery<'_>,
    site: Site,
    w: Window,
    i: int,
    j: int,
)
    requires
        db.wf(),
        0 <= i < j < policy::page(db, q, site, w).len(),
        q.sort == Some(PostSortType::NewComments),
        ({
            let a = policy::page(db, q, site, w)[i];
            let b = policy::page(db, q, site, w)[j];
            &&& if q.community_id is None || q.community_id_just_for_prefetch {
                a.counts.featured_local == b.counts.featured_local
            } else {
                a.counts.featured_community == b.counts.featured_community
            }
            &&& q.saved_only == Some(true) ==> a.saved is Some && b.saved is Some
                && a.saved->0.published == b.saved->0.published
        }),
    ensures
        ({
            let a = *policy::page(db, q, site, w)[i].counts;
            let b = *policy::page(db, q, site, w)[j].counts;
            ||| a.newest_comment_time > b.newest_comment_time
            ||| a.newest_comment_time == b.newest_comment_time && a.post_id.0 > b.post_id.0
        }),
{
    lemma_page_in_order(db, q, site, w, i, j);
    let a = *policy::page(db, q, site, w)[i].counts;
    let b = *policy::page(db, q, site, w)[j].counts;
    lemma_three_keys(policy::sort_keys(q), a, b);
}

/// Featured posts come first: on a page no post that is not featured precedes one that is, other
/// than among saved posts, where that holds of those that were saved at the same time. On the page
/// of a community, posts are featured in the community; elsewhere, and where the community is
/// given just for a bound, on the site.
pub proof fn law_order_featured(
    db: &Database,
    q: PostQuery<'_>,
    site: Site,
    w: Window,
    i: int,
    j: int,
)
    requires
        db.wf(),
        0 <= i < j < policy::page(db, q, site, w).len(),
        q.saved_only == Some(true) ==> {
            let a = policy::page(db, q, site, w)[i];
            let b = policy::page(db, q, site, w)[j];
            a.saved is Some && b.saved is Some && a.saved->0.published == b.saved->0.published
        },
    ensures
        ({
            let a = *policy::page(db, q, site, w)[i].counts;
            let b = *policy::page(db, q, site, w)[j].counts;
            if q.community_id is None || q.community_id_just_for_prefetch {
                b.featured_local ==> a.featured_local
            } else {
                b.featured_community ==> a.featured_community
            }
        }),
{
    lemma_page_in_order(db, q, site, w, i, j);
    let keys = policy::sort_keys(q);
    let a = *policy::page(db, q, site, w)[i].counts;
    let b = *policy::page(db, q, site, w)[j].counts;
    let k = choose|k: int| order::decides(keys, a, b, k);
    if k > 0 {
        assert(keys[0].value(a) == keys[0].value(b));
    }
}

/// Going back, a page of saved posts starts with the one that was saved first.
pub proof fn law_saved_order_back(
    db: &Database,
    q: PostQuery<'_>,
    site: Site,
    w: Window,
    i: int,
    j: int,
)
    requires
        db.wf(),
        q.saved_only == Some(true),
        q.page_back == Some(true),
        0 <= i < j < policy::page(db, q, site, w).len(),
    ensures
        policy::page(db, q, site, w)[i].saved matches Some(a) && policy::page(
            db,
            q,
            site,
            w,
        )[j].saved matches Some(b) && a.published <= b.published,
{
    let l = policy::layout(q, w);
    laws::lemma_ranked(l, db, q, site);
    let ranked = l.ranking(policy::rule(db, q, site));
    let wanted = plan::window(ranked, w.offset as int, w.limit as int);
    let n = wanted.len();
    laws::law_page_listed(db, q, site, w, i);
    laws::law_page_listed(db, q, site, w, j);
    assert(policy::page(db, q, site, w)[i] == wanted[n - 1 - i]);
    assert(policy::page(db, q, site, w)[j] == wanted[n - 1 - j]);
    assert(l.ahead(ranked[w.offset + n - 1 - j], ranked[w.offset + n - 1 - i]));
}

/// The keys of a query, by its sort: the mark of featured posts, the main key, the time of
/// publication where the main key is no time, and the id.
pub proof fn law_keys_of_a_query(q: PostQuery<'_>)
    ensures
        ({
            let keys = policy::sort_keys(q);
            let sort = if q.sort is Some { q.sort->0 } else { PostSortType::Hot };
            let by_time = sort == PostSortType::New || sort == PostSortType::Old || sort
                == PostSortType::NewComments;
            &&& keys.len() == (if by_time { 3int } else { 4int })
            &&& q.community_id is None || q.community_id_just_for_prefetch ==> keys[0]
                == SortKey::FeaturedLocal
            &&& q.community_id is Some && !q.community_id_just_for_prefetch ==> keys[0]
                == SortKey::FeaturedCommunity
            &&& keys[1] == (match sort {
                PostSortType::Active => SortKey::HotRankActive,
                PostSortType::Hot => SortKey::HotRank,
                PostSortType::Scaled => SortKey::ScaledRank,
                PostSortType::Controversial => SortKey::ControversyRank,
                PostSortType::New => SortKey::Published,
                PostSortType::Old => SortKey::ReversePublished,
                PostSortType::NewComments => SortKey::NewestCommentTime,
                PostSortType::MostComments => SortKey::Comments,
                _ => SortKey::Score,
            })
            &&& !by_time ==> keys[2] == SortKey::Published
            &&& keys[keys.len() - 1] == SortKey::PostId
        }),
{
}

} // verus!
