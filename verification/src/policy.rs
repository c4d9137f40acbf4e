//! The rules: which posts a viewer may read, which posts a query lists, and in which order.

use vstd::prelude::*;

use crate::cursor::PaginationCursorData;
use crate::order::SortKey;
use crate::plan;
use crate::plan::{Bound, Layout};
use crate::query::{PostQuery, Site, Window};
use crate::tables::{Candidate, Database, Interval, LocalUser};
use crate::types::{CommunityVisibility, ListingType, PersonId, PostSortType};

verus! {

/// The person behind a user.
pub open spec fn person_of(user: Option<&LocalUser>) -> Option<PersonId> {
    match user {
        Some(u) => Some(u.person_id),
        None => None,
    }
}

/// The person behind a user, or the stand-in where there is no user.
pub open spec fn person_or_nobody(user: Option<&LocalUser>) -> PersonId {
    match user {
        Some(u) => u.person_id,
        None => plan::nobody(),
    }
}

/// The user is an admin of this site.
pub open spec fn is_admin(user: Option<&LocalUser>) -> bool {
    user matches Some(u) && u.admin
}

/// The person as whom a user reads private communities.
pub open spec fn reader_of_private(user: Option<&LocalUser>) -> PersonId {
    match user {
        Some(u) => u.person_id,
        None => PersonId(0),
    }
}

/// The viewer may read the post. Those who moderate see what is removed, deleted or private;
/// others see what is removed or deleted only if it is their own, and private communities only as
/// accepted followers. Without a login, only public communities can be seen.
pub open spec fn readable(
    db: &Database,
    c: Candidate<'_>,
    user: Option<&LocalUser>,
    is_mod_or_admin: bool,
) -> bool {
    let gone = c.community.removed || c.post.removed || c.community.deleted || c.post.deleted;
    let private = c.community.visibility == CommunityVisibility::Private;
    &&& is_mod_or_admin || {
        &&& gone ==> c.post.creator_id == person_or_nobody(user)
        &&& private ==> db.follows_accepted(reader_of_private(user), c.counts.community_id)
    }
    &&& user is None ==> c.community.visibility == CommunityVisibility::Public
}

/// Posts of deleted communities are not listed. Deleted posts, and posts that are still to be
/// published, are listed for their creator alone.
pub open spec fn state_rule(c: Candidate<'_>, q: PostQuery<'_>) -> bool {
    &&& !c.community.deleted
    &&& c.post.deleted || c.post.scheduled_publish_time is Some ==> person_of(q.local_user) == Some(
        c.post.creator_id,
    )
}

/// What is removed is listed for admins who look at a profile, and for nobody else.
pub open spec fn removal_rule(c: Candidate<'_>, q: PostQuery<'_>) -> bool {
    c.community.removed || c.post.removed ==> q.creator_id is Some && is_admin(q.local_user)
}

/// A query for a community or for a creator lists their posts alone.
pub open spec fn scope_rule(c: Candidate<'_>, q: PostQuery<'_>) -> bool {
    &&& q.community_id matches Some(id) ==> c.counts.community_id == id
    &&& q.creator_id matches Some(id) ==> c.counts.creator_id == id
}

/// The listing type of the query.
pub open spec fn listing_type(q: PostQuery<'_>, site: Site) -> ListingType {
    match q.listing_type {
        Some(t) => t,
        None => site.listing_type,
    }
}

/// The listing type says which communities the posts come from. Hidden communities show up for
/// those who follow them.
pub open spec fn listing_rule(
    db: &Database,
    c: Candidate<'_>,
    q: PostQuery<'_>,
    site: Site,
) -> bool {
    let me = person_or_nobody(q.local_user);
    let followed = db.follows(me, c.counts.community_id);
    match listing_type(q, site) {
        ListingType::Subscribed => followed,
        ListingType::Local => c.community.local && (c.community.hidden ==> followed),
        ListingType::All => c.community.hidden ==> followed,
        ListingType::ModeratorView => db.moderates(me, c.post.community_id),
    }
}

/// A search for an address compares addresses. Any other search looks at the title and, unless it
/// is confined to titles, at the body; it leaves out what is removed or deleted.
pub open spec fn search_rule(db: &Database, c: Candidate<'_>, q: PostQuery<'_>) -> bool {
    q.search_term matches Some(term) ==> if q.url_only == Some(true) {
        c.post.url is Some && c.post.url->0@ == term@
    } else {
        &&& db.fuzzy(c.post.name@, term@) || (q.title_only != Some(true) && c.post.body is Some
            && db.fuzzy(c.post.body->0@, term@))
        &&& !c.post.removed
        &&& !c.post.deleted
    }
}

/// The query shows posts that are not safe for work.
pub open spec fn shows_nsfw(q: PostQuery<'_>, site: Site) -> bool {
    match (q.show_nsfw, q.local_user) {
        (Some(b), _) => b,
        (None, Some(u)) => u.show_nsfw,
        (None, None) => site.show_nsfw,
    }
}

/// Posts that are not safe for work, posts by bots and posts with comments are left out where
/// the query or the viewer's settings say so.
pub open spec fn content_rule(c: Candidate<'_>, q: PostQuery<'_>, site: Site) -> bool {
    &&& c.post.nsfw || c.community.nsfw ==> shows_nsfw(q, site)
    &&& c.creator.bot_account ==> (q.local_user matches Some(u) ==> u.show_bot_accounts)
    &&& q.no_comments_only == Some(true) ==> c.counts.comments == 0
}

/// The query shows posts that the user has read.
pub open spec fn shows_read(q: PostQuery<'_>, user: LocalUser) -> bool {
    match q.show_read {
        Some(b) => b,
        None => user.show_read_posts,
    }
}

/// Read posts are left out where the query or the user's settings say so, but not among saved
/// posts; hidden posts are left out unless the query asks for them. Neither holds on a profile.
pub open spec fn history_rule(db: &Database, c: Candidate<'_>, q: PostQuery<'_>) -> bool {
    &&& q.saved_only == Some(true) ==> c.saved is Some
    &&& q.local_user matches Some(u) ==> (q.creator_id is None ==> {
        &&& q.saved_only != Some(true) && !shows_read(q, *u) ==> !db.has_read(
            u.person_id,
            c.counts.post_id,
        )
        &&& q.show_hidden != Some(true) ==> !db.has_hidden(u.person_id, c.counts.post_id)
    })
}

/// A user who asks for what they voted for, or against, sees that, without their own posts.
pub open spec fn vote_rule(db: &Database, c: Candidate<'_>, q: PostQuery<'_>) -> bool {
    q.local_user matches Some(u) ==> if q.liked_only == Some(true) {
        c.counts.creator_id != u.person_id && db.vote(u.person_id, c.counts.post_id) == Some(1i16)
    } else if q.disliked_only == Some(true) {
        c.counts.creator_id != u.person_id && db.vote(u.person_id, c.counts.post_id) == Some(
            (-1) as i16,
        )
    } else {
        true
    }
}

/// Private communities are listed for admins and for accepted followers. Without a login, only
/// public communities are listed.
pub open spec fn visibility_rule(db: &Database, c: Candidate<'_>, q: PostQuery<'_>) -> bool {
    &&& q.local_user is None ==> c.community.visibility == CommunityVisibility::Public
    &&& c.community.visibility == CommunityVisibility::Private ==> is_admin(q.local_user)
        || db.follows_accepted(person_or_nobody(q.local_user), c.counts.community_id)
}

/// A user sees posts in the languages they read, and nothing from the communities, instances and
/// persons they block. None of this holds in the moderator view.
pub open spec fn personal_rule(
    db: &Database,
    c: Candidate<'_>,
    q: PostQuery<'_>,
    site: Site,
) -> bool {
    q.local_user matches Some(u) ==> (listing_type(q, site) != ListingType::ModeratorView ==> {
        &&& db.reads_language(u.id, c.post.language_id)
        &&& !db.blocks_community(u.person_id, c.counts.community_id)
        &&& !db.blocks_instance(u.person_id, c.counts.instance_id)
        &&& !db.blocks_person(u.person_id, c.counts.creator_id)
    })
}

/// The main sort of the query.
pub open spec fn sort_type(q: PostQuery<'_>) -> PostSortType {
    match q.sort {
        Some(sort) => sort,
        None => PostSortType::Hot,
    }
}

/// How far back a sort looks.
pub open spec fn period(sort: PostSortType) -> Option<Interval> {
    match sort {
        PostSortType::TopYear => Some(Interval::of_months(12)),
        PostSortType::TopNineMonths => Some(Interval::of_months(9)),
        PostSortType::TopSixMonths => Some(Interval::of_months(6)),
        PostSortType::TopThreeMonths => Some(Interval::of_months(3)),
        PostSortType::TopMonth => Some(Interval::of_months(1)),
        PostSortType::TopWeek => Some(Interval::of_days(7)),
        PostSortType::TopDay => Some(Interval::of_days(1)),
        PostSortType::TopTwelveHour => Some(Interval::of_hours(12)),
        PostSortType::TopSixHour => Some(Interval::of_hours(6)),
        PostSortType::TopHour => Some(Interval::of_hours(1)),
        _ => None,
    }
}

/// A sort that looks back a while lists what was published since.
pub open spec fn period_rule(db: &Database, c: Candidate<'_>, q: PostQuery<'_>) -> bool {
    period(sort_type(q)) matches Some(interval) ==> db.since(interval, c.counts.published)
}

/// The query lists the post.
pub open spec fn listed(db: &Database, c: Candidate<'_>, q: PostQuery<'_>, site: Site) -> bool {
    &&& state_rule(c, q)
    &&& removal_rule(c, q)
    &&& scope_rule(c, q)
    &&& listing_rule(db, c, q, site)
    &&& search_rule(db, c, q)
    &&& content_rule(c, q, site)
    &&& history_rule(db, c, q)
    &&& vote_rule(db, c, q)
    &&& visibility_rule(db, c, q)
    &&& personal_rule(db, c, q, site)
    &&& period_rule(db, c, q)
}

/// The rows that a query lists.
pub open spec fn rule<'a>(db: &Database, q: PostQuery<'_>, site: Site) -> spec_fn(
    Candidate<'a>,
) -> bool {
    |c: Candidate<'a>|
        db.has_candidate(person_or_nobody(q.local_user), c) && listed(db, c, q, site)
}

/// The key of a sort.
pub open spec fn sort_key(sort: PostSortType) -> SortKey {
    match sort {
        PostSortType::Active => SortKey::HotRankActive,
        PostSortType::Hot => SortKey::HotRank,
        PostSortType::Scaled => SortKey::ScaledRank,
        PostSortType::Controversial => SortKey::ControversyRank,
        PostSortType::New => SortKey::Published,
        PostSortType::Old => SortKey::ReversePublished,
        PostSortType::NewComments => SortKey::NewestCommentTime,
        PostSortType::MostComments => SortKey::Comments,
        _ => SortKey::Score,
    }
}

/// The sort is by time in itself.
pub open spec fn is_time_sort(sort: PostSortType) -> bool {
    sort == PostSortType::New || sort == PostSortType::Old || sort == PostSortType::NewComments
}

/// The keys of a query: featured posts first, then the main sort, then the newest unless the main
/// sort is by time, and the post id as the tie breaker.
pub open spec fn sort_keys(q: PostQuery<'_>) -> Seq<SortKey> {
    let featured = if q.community_id is None || q.community_id_just_for_prefetch {
        SortKey::FeaturedLocal
    } else {
        SortKey::FeaturedCommunity
    };
    let sort = sort_type(q);
    if is_time_sort(sort) {
        seq![featured, sort_key(sort), SortKey::PostId]
    } else {
        seq![featured, sort_key(sort), SortKey::Published, SortKey::PostId]
    }
}

/// The bound that a cursor of the query sets.
pub open spec fn bound(cursor: Option<PaginationCursorData>, or_equal: bool) -> Option<Bound> {
    match cursor {
        Some(data) => Some(Bound { cursor: data.0, or_equal }),
        None => None,
    }
}

/// The layout of a query. Going back, the cursors change sides and the page is counted from the
/// end.
pub open spec fn layout(q: PostQuery<'_>, w: Window) -> Layout {
    let back = q.page_back == Some(true);
    let near = bound(q.page_after, false);
    let far = bound(q.page_before_or_equal, true);
    Layout {
        saved_first: q.saved_only == Some(true),
        order: sort_keys(q),
        after: if back { far } else { near },
        before: if back { near } else { far },
        from_end: back,
        limit: w.limit as nat,
        offset: w.offset as nat,
    }
}

/// The rows of the page that a query asks for.
pub open spec fn page<'a>(db: &Database, q: PostQuery<'_>, site: Site, w: Window) -> Seq<
    Candidate<'a>,
> {
    layout(q, w).page(rule(db, q, site))
}

} // verus!
