//! Ordering posts by a list of sort keys.

use vstd::prelude::*;

use crate::tables::PostAggregates;

verus! {

/// One key of an ordering. The larger value comes first.
#[derive(Clone, Copy, PartialEq, Eq, Structural, Debug)]
pub enum SortKey {
    FeaturedLocal,
    FeaturedCommunity,
    HotRankActive,
    HotRank,
    ScaledRank,
    ControversyRank,
    Published,
    /// The time of publication, turned round: the oldest comes first.
    ReversePublished,
    NewestCommentTime,
    Comments,
    Score,
    PostId,
}

impl SortKey {
    /// The value by which the key orders a post.
    pub open spec fn value(self, a: PostAggregates) -> int {
        match self {
            SortKey::FeaturedLocal => if a.featured_local { 1 } else { 0 },
            SortKey::FeaturedCommunity => if a.featured_community { 1 } else { 0 },
            SortKey::HotRankActive => a.hot_rank_active as int,
            SortKey::HotRank => a.hot_rank as int,
            SortKey::ScaledRank => a.scaled_rank as int,
            SortKey::ControversyRank => a.controversy_rank as int,
            SortKey::Published => a.published as int,
            SortKey::ReversePublished => -a.published,
            SortKey::NewestCommentTime => a.newest_comment_time as int,
            SortKey::Comments => a.comments as int,
            SortKey::Score => a.score as int,
            SortKey::PostId => a.post_id.0 as int,
        }
    }

    /// Computes the value by which the key orders a post.
    pub fn value_of(self, a: &PostAggregates) -> (v: i128)
        ensures
            v == self.value(*a),
    {
        match self {
            SortKey::FeaturedLocal => if a.featured_local { 1 } else { 0 },
            SortKey::FeaturedCommunity => if a.featured_community { 1 } else { 0 },
            SortKey::HotRankActive => a.hot_rank_active as i128,
            SortKey::HotRank => a.hot_rank as i128,
            SortKey::ScaledRank => a.scaled_rank as i128,
            SortKey::ControversyRank => a.controversy_rank as i128,
            SortKey::Published => a.published as i128,
            SortKey::ReversePublished => -(a.published as i128),
            SortKey::NewestCommentTime => a.newest_comment_time as i128,
            SortKey::Comments => a.comments as i128,
            SortKey::Score => a.score as i128,
            SortKey::PostId => a.post_id.0 as i128,
        }
    }
}

/// The first `k` keys do not tell `a` and `b` apart.
pub open spec fn level_until(
    order: Seq<SortKey>,
    a: PostAggregates,
    b: PostAggregates,
    k: int,
) -> bool {
    forall|j: int| 0 <= j < k ==> (#[trigger] order[j]).value(a) == order[j].value(b)
}

/// The `k`th key is the first to tell `a` and `b` apart, and puts `a` first.
pub open spec fn decides(
    order: Seq<SortKey>,
    a: PostAggregates,
    b: PostAggregates,
    k: int,
) -> bool {
    &&& 0 <= k < order.len()
    &&& level_until(order, a, b, k)
    &&& order[k].value(a) > order[k].value(b)
}

/// `a` comes before `b`: the keys are compared in turn, and the first that differs decides.
pub open spec fn beats(order: Seq<SortKey>, a: PostAggregates, b: PostAggregates) -> bool {
    exists|k: int| decides(order, a, b, k)
}

/// No key tells `a` and `b` apart.
pub open spec fn ties(order: Seq<SortKey>, a: PostAggregates, b: PostAggregates) -> bool {
    level_until(order, a, b, order.len() as int)
}

/// Where one post stands relative to another.
#[derive(Clone, Copy, PartialEq, Eq, Structural, Debug)]
pub enum Place {
    Before,
    Level,
    After,
}

/// Compares two posts by the keys.
pub fn place(order: &Vec<SortKey>, a: &PostAggregates, b: &PostAggregates) -> (p: Place)
    ensures
        p == Place::Before <==> beats(order@, *a, *b),
        p == Place::Level <==> ties(order@, *a, *b),
        p == Place::After <==> beats(order@, *b, *a),
{
    let mut i: usize = 0;
    while i < order.len()
        invariant
            i <= order.len(),
            level_until(order@, *a, *b, i as int),
        decreases order.len() - i,
    {
        let va: i128 = order[i].value_of(a);
        let vb: i128 = order[i].value_of(b);
        if va > vb {
            proof {
                assert(decides(order@, *a, *b, i as int));
                lemma_exclusive(order@, *a, *b);
            }
            return Place::Before;
        }
        if va < vb {
            proof {
                assert(decides(order@, *b, *a, i as int));
                lemma_exclusive(order@, *b, *a);
            }
            return Place::After;
        }
        i += 1;
    }
    proof {
        assert(ties(order@, *a, *b));
        if beats(order@, *a, *b) {
            lemma_exclusive(order@, *a, *b);
        }
        if beats(order@, *b, *a) {
            lemma_exclusive(order@, *b, *a);
        }
    }
    Place::Level
}

/// A post that comes before another neither comes after it nor is level with it.
pub proof fn lemma_exclusive(order: Seq<SortKey>, a: PostAggregates, b: PostAggregates)
    requires
        beats(order, a, b),
    ensures
        !beats(order, b, a),
        !ties(order, a, b),
        !ties(order, b, a),
{
    let k = choose|k: int| decides(order, a, b, k);
    assert(order[k].value(a) > order[k].value(b));
    if beats(order, b, a) {
        let m = choose|m: int| decides(order, b, a, m);
        if m < k {
            assert(order[m].value(a) == order[m].value(b));
        } else if k < m {
            assert(order[k].value(b) == order[k].value(a));
        }
    }
}

/// Two posts are level, or one of them comes before the other.
pub proof fn lemma_trichotomy(order: Seq<SortKey>, a: PostAggregates, b: PostAggregates, k: int)
    requires
        0 <= k <= order.len(),
    ensures
        level_until(order, a, b, k) || beats(order, a, b) || beats(order, b, a),
    decreases k,
{
    if k > 0 {
        lemma_trichotomy(order, a, b, k - 1);
        if level_until(order, a, b, k - 1) {
            if order[k - 1].value(a) > order[k - 1].value(b) {
                assert(decides(order, a, b, k - 1));
            } else if order[k - 1].value(a) < order[k - 1].value(b) {
                assert(decides(order, b, a, k - 1));
            }
        }
    }
}

/// What comes before a post that comes before another comes before the other.
pub proof fn lemma_transitive(
    order: Seq<SortKey>,
    a: PostAggregates,
    b: PostAggregates,
    c: PostAggregates,
)
    requires
        beats(order, a, b),
        beats(order, b, c),
    ensures
        beats(order, a, c),
{
    let k = choose|k: int| decides(order, a, b, k);
    let m = choose|m: int| decides(order, b, c, m);
    let n = if k < m { k } else { m };
    assert forall|j: int| 0 <= j < n implies (#[trigger] order[j]).value(a) == order[j].value(
        c,
    ) by {
        assert(order[j].value(b) == order[j].value(c));
    }
    assert(order[n].value(a) > order[n].value(c)) by {
        assert(order[k].value(a) > order[k].value(b));
        assert(order[m].value(b) > order[m].value(c));
    }
    assert(decides(order, a, c, n));
}

/// Where the post id is among the keys, only posts with one id are level.
pub proof fn lemma_ties_same_post(order: Seq<SortKey>, a: PostAggregates, b: PostAggregates)
    requires
        order.contains(SortKey::PostId),
        ties(order, a, b),
    ensures
        a.post_id == b.post_id,
{
    let k = choose|k: int| 0 <= k < order.len() && order[k] == SortKey::PostId;
    assert(order[k].value(a) == order[k].value(b));
}

} // verus!
