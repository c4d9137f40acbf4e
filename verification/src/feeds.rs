//! Which posts a listing holds, and how the listings of related queries differ.

use vstd::prelude::*;

use crate::facts;
use crate::filter::{Filter, Flag};
use crate::laws;
use crate::query::{PostQuery, Site};
use crate::tables::{Candidate, Database, Interval, LocalUser};
use crate::types::{
    CommunityId, CommunityVisibility, ListingType, LocalUserId, PersonId, PostId, PostSortType,
};

verus! {

/// A row of the join is left out of a listing for one of these reasons, and for no other: its
/// community is deleted; it is deleted or scheduled and not the viewer's own; it or its community
/// is removed, and the viewer is not an admin on a profile; it is outside the community or the
/// profile that was asked for, or outside the listing type; the search does not find it; it is
/// unsafe for work, by a bot, or has comments, where that is not wanted; it is not saved, or it is
/// read or hidden, where that matters; it does not have the vote that was asked for, or is the
/// viewer's own; the viewer may not see its community; it is in a language that the user does not
/// read, or blocked by them; it is older than the sort looks back.
pub proof fn law_left_out_for_a_reason(
    db: &Database,
    q: PostQuery<'_>,
    site: Site,
    c: Candidate<'_>,
)
    requires
        db.wf(),
        db.has_candidate(
            match q.local_user {
                Some(u) => u.person_id,
                None => PersonId((-1) as i32),
            },
            c,
        ),
    ensures
        !laws::listing(db, q, site).contains(c) <==> {
            let user = q.local_user;
            let me = match user {
                Some(u) => u.person_id,
                None => PersonId((-1) as i32),
            };
            let own = user is Some && user->0.person_id == c.post.creator_id;
            let admin = user is Some && user->0.admin;
            let home = q.creator_id is None;
            let kind = if q.listing_type is Some { q.listing_type->0 } else { site.listing_type };
            let followed = db.follows(me, c.counts.community_id);
            let visibility = c.community.visibility;
            let term = q.search_term->0@;
            let by_text = q.search_term is Some && q.url_only != Some(true);
            let vote = db.vote(me, c.counts.post_id);
            let published = c.counts.published;
            ||| c.community.deleted
            ||| c.post.deleted && !own
            ||| c.post.scheduled_publish_time is Some && !own
            ||| c.post.removed && (home || !admin)
            ||| c.community.removed && (home || !admin)
            ||| q.community_id is Some && q.community_id->0 != c.counts.community_id
            ||| q.creator_id is Some && q.creator_id->0 != c.counts.creator_id
            ||| kind == ListingType::Subscribed && !followed
            ||| kind == ListingType::Local && !c.community.local
            ||| kind == ListingType::Local && c.community.hidden && !followed
            ||| kind == ListingType::All && c.community.hidden && !followed
            ||| kind == ListingType::ModeratorView && !db.moderates(me, c.post.community_id)
            ||| q.search_term is Some && q.url_only == Some(true) && c.post.url is None
            ||| q.search_term is Some && q.url_only == Some(true) && c.post.url->0@ != term
            ||| by_text && (c.post.removed || c.post.deleted)
            ||| by_text && !db.fuzzy(c.post.name@, term) && q.title_only == Some(true)
            ||| by_text && !db.fuzzy(c.post.name@, term) && c.post.body is None
            ||| by_text && !db.fuzzy(c.post.name@, term) && !db.fuzzy(c.post.body->0@, term)
            ||| (c.post.nsfw || c.community.nsfw) && q.show_nsfw == Some(false)
            ||| (c.post.nsfw || c.community.nsfw) && q.show_nsfw is None && user is Some
                && !user->0.show_nsfw
            ||| (c.post.nsfw || c.community.nsfw) && q.show_nsfw is None && user is None
                && !site.show_nsfw
            ||| c.creator.bot_account && user is Some && !user->0.show_bot_accounts
            ||| q.no_comments_only == Some(true) && c.counts.comments != 0
            ||| q.saved_only == Some(true) && c.saved is None
            ||| user is Some && home && q.saved_only != Some(true) && q.show_read == Some(false)
                && db.has_read(me, c.counts.post_id)
            ||| user is Some && home && q.saved_only != Some(true) && q.show_read is None
                && !user->0.show_read_posts && db.has_read(me, c.counts.post_id)
            ||| user is Some && home && q.show_hidden != Some(true) && db.has_hidden(
                me,
                c.counts.post_id,
            )
            ||| user is Some && q.liked_only == Some(true) && (c.counts.creator_id == me || vote
                != Some(1i16))
            ||| user is Some && q.liked_only != Some(true) && q.disliked_only == Some(true) && (
            c.counts.creator_id == me || vote != Some((-1) as i16))
            ||| user is None && visibility != CommunityVisibility::Public
            ||| visibility == CommunityVisibility::Private && !admin && !db.follows_accepted(
                me,
                c.counts.community_id,
            )
            ||| user is Some && kind != ListingType::ModeratorView && !db.reads_language(
                user->0.id,
                c.post.language_id,
            )
            ||| user is Some && kind != ListingType::ModeratorView && db.blocks_community(
                me,
                c.counts.community_id,
            )
            ||| user is Some && kind != ListingType::ModeratorView && db.blocks_instance(
                me,
                c.counts.instance_id,
            )
            ||| user is Some && kind != ListingType::ModeratorView && db.blocks_person(
                me,
                c.counts.creator_id,
            )
            ||| q.sort == Some(PostSortType::TopHour) && !db.since(
                (Interval { microseconds: 3_600_000_000, days: 0, months: 0 }),
                published,
            )
            ||| q.sort == Some(PostSortType::TopSixHour) && !db.since(
                (Interval { microseconds: 21_600_000_000, days: 0, months: 0 }),
                published,
            )
            ||| q.sort == Some(PostSortType::TopTwelveHour) && !db.since(
                (Interval { microseconds: 43_200_000_000, days: 0, months: 0 }),
                published,
            )
            ||| q.sort == Some(PostSortType::TopDay) && !db.since(
                (Interval { microseconds: 0, days: 1, months: 0 }),
                published,
            )
            ||| q.sort == Some(PostSortType::TopWeek) && !db.since(
                (Interval { microseconds: 0, days: 7, months: 0 }),
                published,
            )
            ||| q.sort == Some(PostSortType::TopMonth) && !db.since(
                (Interval { microseconds: 0, days: 0, months: 1 }),
                published,
            )
            ||| q.sort == Some(PostSortType::TopThreeMonths) && !db.since(
                (Interval { microseconds: 0, days: 0, months: 3 }),
                published,
            )
            ||| q.sort == Some(PostSortType::TopSixMonths) && !db.since(
                (Interval { microseconds: 0, days: 0, months: 6 }),
                published,
            )
            ||| q.sort == Some(PostSortType::TopNineMonths) && !db.since(
                (Interval { microseconds: 0, days: 0, months: 9 }),
                published,
            )
            ||| q.sort == Some(PostSortType::TopYear) && !db.since(
                (Interval { microseconds: 0, days: 0, months: 12 }),
                published,
            )
        },
{
    laws::law_listing_complete(db, q, site);
}

/// The subscribed listing holds the posts of the listing of all communities whose community the
/// viewer follows, whoever made them, and no others.
pub proof fn law_subscribed_is_the_followed_part_of_all(
    db: &Database,
    q: PostQuery<'_>,
    site: Site,
    c: Candidate<'_>,
)
    requires
        db.wf(),
    ensures
        laws::listing(
            db,
            PostQuery { listing_type: Some(ListingType::Subscribed), ..q },
            site,
        ).contains(c)
            <==> laws::listing(
                db,
                PostQuery { listing_type: Some(ListingType::All), ..q },
                site,
            ).contains(c) && exists|i: int|
            0 <= i < db.community_followers@.len() && (
            #[trigger] db.community_followers@[i]).person_id == (match q.local_user {
                Some(u) => u.person_id,
                None => PersonId((-1) as i32),
            })
                && db.community_followers@[i].community_id == c.counts.community_id,
{
    laws::law_listing_complete(
        db,
        PostQuery { listing_type: Some(ListingType::Subscribed), ..q },
        site,
    );
    laws::law_listing_complete(db, PostQuery { listing_type: Some(ListingType::All), ..q }, site);
    let me = match q.local_user {
        Some(u) => u.person_id,
        None => PersonId((-1) as i32),
    };
    facts::law_persons_and_communities(db, me, c.counts.community_id);
}

/// The local listing holds the posts of the listing of all communities whose community is local,
/// and no others.
pub proof fn law_local_is_the_local_part_of_all(
    db: &Database,
    q: PostQuery<'_>,
    site: Site,
    c: Candidate<'_>,
)
    requires
        db.wf(),
    ensures
        laws::listing(
            db,
            PostQuery { listing_type: Some(ListingType::Local), ..q },
            site,
        ).contains(c)
            <==> laws::listing(
                db,
                PostQuery { listing_type: Some(ListingType::All), ..q },
                site,
            ).contains(c) && c.community.local,
{
    laws::law_listing_complete(db, PostQuery { listing_type: Some(ListingType::Local), ..q }, site);
    laws::law_listing_complete(db, PostQuery { listing_type: Some(ListingType::All), ..q }, site);
}

/// The moderator view holds posts of communities that the viewer moderates, among them all those
/// that the listing of all communities shows the viewer.
pub proof fn law_moderator_view(
    db: &Database,
    q: PostQuery<'_>,
    site: Site,
    c: Candidate<'_>,
)
    requires
        db.wf(),
    ensures
        laws::listing(
            db,
            PostQuery { listing_type: Some(ListingType::ModeratorView), ..q },
            site,
        ).contains(c) ==> exists|i: int|
            0 <= i < db.community_moderators@.len() && (
            #[trigger] db.community_moderators@[i]).person_id == (match q.local_user {
                Some(u) => u.person_id,
                None => PersonId((-1) as i32),
            })
                && db.community_moderators@[i].community_id == c.post.community_id,
        (laws::listing(
            db,
            PostQuery { listing_type: Some(ListingType::All), ..q },
            site,
        ).contains(c) && exists|i: int|
            0 <= i < db.community_moderators@.len() && (
            #[trigger] db.community_moderators@[i]).person_id == (match q.local_user {
                Some(u) => u.person_id,
                None => PersonId((-1) as i32),
            })
                && db.community_moderators@[i].community_id == c.post.community_id)
                ==> laws::listing(
                    db,
                    PostQuery { listing_type: Some(ListingType::ModeratorView), ..q },
                    site,
                ).contains(c),
{
    laws::law_listing_complete(
        db,
        PostQuery { listing_type: Some(ListingType::ModeratorView), ..q },
        site,
    );
    laws::law_listing_complete(db, PostQuery { listing_type: Some(ListingType::All), ..q }, site);
    let me = match q.local_user {
        Some(u) => u.person_id,
        None => PersonId((-1) as i32),
    };
    facts::law_persons_and_communities(db, me, c.post.community_id);
}

/// A query without a listing type lists what it lists with that of the site.
pub proof fn law_listing_type_of_the_site(
    db: &Database,
    q: PostQuery<'_>,
    site: Site,
    c: Candidate<'_>,
)
    requires
        db.wf(),
        q.listing_type is None,
    ensures
        laws::listing(db, q, site).contains(c)
            <==> laws::listing(
                db,
                PostQuery { listing_type: Some(site.listing_type), ..q },
                site,
            ).contains(c),
{
    laws::law_listing_complete(db, q, site);
    laws::law_listing_complete(db, PostQuery { listing_type: Some(site.listing_type), ..q }, site);
}

/// The listing of a community holds the posts of the same listing without it that are in the
/// community, and no others, whether or not the community is given just for a bound.
pub proof fn law_community_is_a_part(
    db: &Database,
    q: PostQuery<'_>,
    site: Site,
    c: Candidate<'_>,
    id: CommunityId,
    flag: bool,
)
    requires
        db.wf(),
    ensures
        laws::listing(
            db,
            PostQuery { community_id: Some(id), community_id_just_for_prefetch: flag, ..q },
            site,
        ).contains(c)
            <==> laws::listing(db, PostQuery { community_id: None, ..q }, site).contains(c)
            && c.counts.community_id == id,
{
    laws::law_listing_complete(
        db,
        PostQuery { community_id: Some(id), community_id_just_for_prefetch: flag, ..q },
        site,
    );
    laws::law_listing_complete(db, PostQuery { community_id: None, ..q }, site);
}

/// A profile holds posts of its person alone, among them all of their posts that are listed
/// elsewhere.
pub proof fn law_profile(
    db: &Database,
    q: PostQuery<'_>,
    site: Site,
    c: Candidate<'_>,
    id: PersonId,
)
    requires
        db.wf(),
    ensures
        laws::listing(db, PostQuery { creator_id: Some(id), ..q }, site).contains(c)
            ==> c.counts.creator_id == id,
        (laws::listing(db, PostQuery { creator_id: None, ..q }, site).contains(c)
            && c.counts.creator_id == id)
            ==> laws::listing(db, PostQuery { creator_id: Some(id), ..q }, site).contains(c),
{
    laws::law_listing_complete(db, PostQuery { creator_id: Some(id), ..q }, site);
    laws::law_listing_complete(db, PostQuery { creator_id: None, ..q }, site);
}

/// A search finds a post whose title matches the term, whatever its body is and whether or not the
/// search is confined to titles, if the post is listed without the search and neither removed nor
/// deleted.
pub proof fn law_search_finds_titles(
    db: &Database,
    q: PostQuery<'_>,
    site: Site,
    c: Candidate<'_>,
)
    requires
        db.wf(),
        q.search_term is Some,
        q.url_only != Some(true),
        laws::listing(db, PostQuery { search_term: None, ..q }, site).contains(c),
        !c.post.removed,
        !c.post.deleted,
        exists|i: int|
            0 <= i < db.fuzzy_matches@.len() && (#[trigger] db.fuzzy_matches@[i]).text@
                == c.post.name@ && db.fuzzy_matches@[i].term@ == q.search_term->0@,
    ensures
        laws::listing(db, q, site).contains(c),
{
    laws::law_listing_complete(db, q, site);
    laws::law_listing_complete(db, PostQuery { search_term: None, ..q }, site);
    facts::law_matches_and_instants(
        db,
        c.post.name@,
        q.search_term->0@,
        arbitrary(),
        arbitrary(),
    );
}

/// A search that is not confined to titles finds a post whose body matches the term, whatever its
/// title is, if the post is listed without the search and neither removed nor deleted.
pub proof fn law_search_finds_bodies(
    db: &Database,
    q: PostQuery<'_>,
    site: Site,
    c: Candidate<'_>,
)
    requires
        db.wf(),
        q.search_term is Some,
        q.url_only != Some(true),
        q.title_only != Some(true),
        laws::listing(db, PostQuery { search_term: None, ..q }, site).contains(c),
        !c.post.removed,
        !c.post.deleted,
        c.post.body is Some,
        exists|i: int|
            0 <= i < db.fuzzy_matches@.len() && (#[trigger] db.fuzzy_matches@[i]).text@
                == c.post.body->0@ && db.fuzzy_matches@[i].term@ == q.search_term->0@,
    ensures
        laws::listing(db, q, site).contains(c),
{
    laws::law_listing_complete(db, q, site);
    laws::law_listing_complete(db, PostQuery { search_term: None, ..q }, site);
    facts::law_matches_and_instants(
        db,
        c.post.body->0@,
        q.search_term->0@,
        arbitrary(),
        arbitrary(),
    );
}

/// A search finds nothing else: what it finds is listed without it, is neither removed nor deleted,
/// and matches the term by its title or, if the search is not confined to titles, by its body.
pub proof fn law_search_finds_nothing_else(
    db: &Database,
    q: PostQuery<'_>,
    site: Site,
    c: Candidate<'_>,
)
    requires
        db.wf(),
        q.search_term is Some,
        q.url_only != Some(true),
        laws::listing(db, q, site).contains(c),
    ensures
        laws::listing(db, PostQuery { search_term: None, ..q }, site).contains(c),
        !c.post.removed,
        !c.post.deleted,
        (exists|i: int|
            0 <= i < db.fuzzy_matches@.len() && (#[trigger] db.fuzzy_matches@[i]).text@
                == c.post.name@
                    && db.fuzzy_matches@[i].term@ == q.search_term->0@)
                    || (q.title_only != Some(true) && c.post.body is Some && (exists|i: int|
            0 <= i < db.fuzzy_matches@.len() && (#[trigger] db.fuzzy_matches@[i]).text@
                == c.post.body->0@ && db.fuzzy_matches@[i].term@ == q.search_term->0@)),
{
    laws::law_listing_complete(db, q, site);
    laws::law_listing_complete(db, PostQuery { search_term: None, ..q }, site);
    facts::law_matches_and_instants(
        db,
        c.post.name@,
        q.search_term->0@,
        arbitrary(),
        arbitrary(),
    );
    facts::law_matches_and_instants(
        db,
        c.post.body->0@,
        q.search_term->0@,
        arbitrary(),
        arbitrary(),
    );
}

/// What a search confined to titles finds, the same search without that finds too.
pub proof fn law_title_search_is_a_part(
    db: &Database,
    q: PostQuery<'_>,
    site: Site,
    c: Candidate<'_>,
)
    requires
        db.wf(),
        laws::listing(db, PostQuery { title_only: Some(true), ..q }, site).contains(c),
    ensures
        laws::listing(db, PostQuery { title_only: None, ..q }, site).contains(c),
        laws::listing(db, PostQuery { title_only: Some(false), ..q }, site).contains(c),
{
    laws::law_listing_complete(db, PostQuery { title_only: Some(true), ..q }, site);
    laws::law_listing_complete(db, PostQuery { title_only: None, ..q }, site);
    laws::law_listing_complete(db, PostQuery { title_only: Some(false), ..q }, site);
}

/// A search for an address finds the posts that are listed without it and link to exactly that
/// address, and no others.
pub proof fn law_search_by_address(
    db: &Database,
    q: PostQuery<'_>,
    site: Site,
    c: Candidate<'_>,
)
    requires
        db.wf(),
        q.search_term is Some,
        q.url_only == Some(true),
    ensures
        laws::listing(db, q, site).contains(c)
            <==> laws::listing(db, PostQuery { search_term: None, ..q }, site).contains(c)
            && c.post.url is Some && c.post.url->0@ == q.search_term->0@,
{
    laws::law_listing_complete(db, q, site);
    laws::law_listing_complete(db, PostQuery { search_term: None, ..q }, site);
}

/// The saved posts of a listing are those that have a bookmark, read or not, and no others.
pub proof fn law_saved_is_a_part(
    db: &Database,
    q: PostQuery<'_>,
    site: Site,
    c: Candidate<'_>,
)
    requires
        db.wf(),
    ensures
        laws::listing(db, PostQuery { saved_only: Some(true), ..q }, site).contains(c)
            <==> laws::listing(
                db,
                PostQuery { saved_only: None, show_read: Some(true), ..q },
                site,
            ).contains(c) && c.saved is Some,
{
    laws::law_listing_complete(db, PostQuery { saved_only: Some(true), ..q }, site);
    laws::law_listing_complete(
        db,
        PostQuery { saved_only: None, show_read: Some(true), ..q },
        site,
    );
}

/// Without posts that are not safe for work, a listing holds what it holds with them, other than
/// posts that are marked so or whose community is, and no others.
pub proof fn law_safe_is_a_part(
    db: &Database,
    q: PostQuery<'_>,
    site: Site,
    c: Candidate<'_>,
)
    requires
        db.wf(),
    ensures
        laws::listing(db, PostQuery { show_nsfw: Some(false), ..q }, site).contains(c)
            <==> laws::listing(db, PostQuery { show_nsfw: Some(true), ..q }, site).contains(c)
            && !c.post.nsfw && !c.community.nsfw,
{
    laws::law_listing_complete(db, PostQuery { show_nsfw: Some(false), ..q }, site);
    laws::law_listing_complete(db, PostQuery { show_nsfw: Some(true), ..q }, site);
}

/// Where the query does not say whether to show posts that are not safe for work, the user's
/// setting decides, and for visitors that of the site.
pub proof fn law_nsfw_setting(
    db: &Database,
    q: PostQuery<'_>,
    site: Site,
    c: Candidate<'_>,
    show: bool,
)
    requires
        db.wf(),
        q.show_nsfw is None,
        show == (match q.local_user {
            Some(u) => u.show_nsfw,
            None => site.show_nsfw,
        }),
    ensures
        laws::listing(db, q, site).contains(c)
            <==> laws::listing(db, PostQuery { show_nsfw: Some(show), ..q }, site).contains(c),
{
    laws::law_listing_complete(db, q, site);
    laws::law_listing_complete(db, PostQuery { show_nsfw: Some(show), ..q }, site);
}

/// Away from profiles and from saved posts, a user who does not want to see read posts is shown
/// what they are shown otherwise, other than the posts they have read, and no others.
pub proof fn law_unread_is_a_part(
    db: &Database,
    q: PostQuery<'_>,
    site: Site,
    c: Candidate<'_>,
    u: &LocalUser,
)
    requires
        db.wf(),
        q.local_user == Some(u),
        q.creator_id is None,
        q.saved_only != Some(true),
    ensures
        laws::listing(db, PostQuery { show_read: Some(false), ..q }, site).contains(c)
            <==> laws::listing(db, PostQuery { show_read: Some(true), ..q }, site).contains(c)
            && !(exists|i: int|
            0 <= i < db.post_reads@.len() && (#[trigger] db.post_reads@[i]).post_id
                == c.counts.post_id && db.post_reads@[i].person_id == u.person_id),
{
    laws::law_listing_complete(db, PostQuery { show_read: Some(false), ..q }, site);
    laws::law_listing_complete(db, PostQuery { show_read: Some(true), ..q }, site);
    facts::law_persons_and_posts(db, u.person_id, c.counts.post_id);
}

/// Where the query does not say whether to show read posts, the user's setting decides. On a
/// profile, among saved posts and without a login read posts are shown in any case.
pub proof fn law_read_setting(
    db: &Database,
    q: PostQuery<'_>,
    site: Site,
    c: Candidate<'_>,
    show: bool,
)
    requires
        db.wf(),
    ensures
        q.show_read is None && q.local_user is Some && show == q.local_user->0.show_read_posts
            ==> (laws::listing(db, q, site).contains(c)
            <==> laws::listing(db, PostQuery { show_read: Some(show), ..q }, site).contains(c)),
        q.creator_id is Some || q.local_user is None || q.saved_only == Some(true)
            ==> (laws::listing(db, q, site).contains(c)
            <==> laws::listing(db, PostQuery { show_read: Some(show), ..q }, site).contains(c)),
{
    laws::law_listing_complete(db, q, site);
    laws::law_listing_complete(db, PostQuery { show_read: Some(show), ..q }, site);
}

/// Away from profiles, a user is shown what they are shown with hidden posts, other than the posts
/// they have hidden, and no others.
pub proof fn law_not_hidden_is_a_part(
    db: &Database,
    q: PostQuery<'_>,
    site: Site,
    c: Candidate<'_>,
    u: &LocalUser,
)
    requires
        db.wf(),
        q.local_user == Some(u),
        q.creator_id is None,
    ensures
        laws::listing(db, PostQuery { show_hidden: None, ..q }, site).contains(c)
            <==> laws::listing(db, PostQuery { show_hidden: Some(true), ..q }, site).contains(c)
            && !(exists|i: int|
            0 <= i < db.post_hides@.len() && (#[trigger] db.post_hides@[i]).post_id
                == c.counts.post_id && db.post_hides@[i].person_id == u.person_id),
        laws::listing(db, PostQuery { show_hidden: Some(false), ..q }, site).contains(c)
            <==> laws::listing(db, PostQuery { show_hidden: None, ..q }, site).contains(c),
{
    laws::law_listing_complete(db, PostQuery { show_hidden: None, ..q }, site);
    laws::law_listing_complete(db, PostQuery { show_hidden: Some(true), ..q }, site);
    laws::law_listing_complete(db, PostQuery { show_hidden: Some(false), ..q }, site);
    facts::law_persons_and_posts(db, u.person_id, c.counts.post_id);
}

/// On a profile and without a login, hidden posts are shown in any case.
pub proof fn law_hidden_on_profiles(
    db: &Database,
    q: PostQuery<'_>,
    site: Site,
    c: Candidate<'_>,
)
    requires
        db.wf(),
        q.creator_id is Some || q.local_user is None,
    ensures
        laws::listing(db, PostQuery { show_hidden: None, ..q }, site).contains(c)
            <==> laws::listing(db, PostQuery { show_hidden: Some(true), ..q }, site).contains(c),
{
    laws::law_listing_complete(db, PostQuery { show_hidden: None, ..q }, site);
    laws::law_listing_complete(db, PostQuery { show_hidden: Some(true), ..q }, site);
}

/// Without bots, a user is shown what they are shown with them, other than posts by bots, and no
/// others.
pub proof fn law_without_bots_is_a_part(
    db: &Database,
    q: PostQuery<'_>,
    site: Site,
    c: Candidate<'_>,
    u: &LocalUser,
    v: &LocalUser,
)
    requires
        db.wf(),
        !u.show_bot_accounts,
        *v == (LocalUser { show_bot_accounts: true, ..*u }),
    ensures
        laws::listing(db, PostQuery { local_user: Some(u), ..q }, site).contains(c)
            <==> laws::listing(db, PostQuery { local_user: Some(v), ..q }, site).contains(c)
            && !c.creator.bot_account,
{
    laws::law_listing_complete(db, PostQuery { local_user: Some(u), ..q }, site);
    laws::law_listing_complete(db, PostQuery { local_user: Some(v), ..q }, site);
}

/// The posts without comments are a part of the listing: those with a count of zero, and no others.
pub proof fn law_no_comments_is_a_part(
    db: &Database,
    q: PostQuery<'_>,
    site: Site,
    c: Candidate<'_>,
)
    requires
        db.wf(),
    ensures
        laws::listing(db, PostQuery { no_comments_only: Some(true), ..q }, site).contains(c)
            <==> laws::listing(db, PostQuery { no_comments_only: None, ..q }, site).contains(c)
            && c.counts.comments == 0,
{
    laws::law_listing_complete(db, PostQuery { no_comments_only: Some(true), ..q }, site);
    laws::law_listing_complete(db, PostQuery { no_comments_only: None, ..q }, site);
}

/// The liked posts of a user are the posts of the listing by others that the user voted for, and
/// the disliked posts those that they voted against; where both are asked for, the liked ones
/// come.
pub proof fn law_voted_is_a_part(
    db: &Database,
    q: PostQuery<'_>,
    site: Site,
    c: Candidate<'_>,
    u: &LocalUser,
)
    requires
        db.wf(),
        q.local_user == Some(u),
    ensures
        laws::listing(db, PostQuery { liked_only: Some(true), ..q }, site).contains(c)
            <==> laws::listing(
                db,
                PostQuery { liked_only: None, disliked_only: None, ..q },
                site,
            ).contains(c) && c.counts.creator_id != u.person_id && exists|i: int|
            0 <= i < db.post_likes@.len() && (#[trigger] db.post_likes@[i]).post_id
                == c.counts.post_id && db.post_likes@[i].person_id == u.person_id
                && db.post_likes@[i].score == 1,
        laws::listing(
            db,
            PostQuery { liked_only: None, disliked_only: Some(true), ..q },
            site,
        ).contains(c)
            <==> laws::listing(
                db,
                PostQuery { liked_only: None, disliked_only: None, ..q },
                site,
            ).contains(c) && c.counts.creator_id != u.person_id && exists|i: int|
            0 <= i < db.post_likes@.len() && (#[trigger] db.post_likes@[i]).post_id
                == c.counts.post_id && db.post_likes@[i].person_id == u.person_id
                && db.post_likes@[i].score == -1,
{
    laws::law_listing_complete(db, PostQuery { liked_only: Some(true), ..q }, site);
    laws::law_listing_complete(db, PostQuery { liked_only: None, disliked_only: None, ..q }, site);
    laws::law_listing_complete(
        db,
        PostQuery { liked_only: None, disliked_only: Some(true), ..q },
        site,
    );
    facts::law_persons_and_posts(db, u.person_id, c.counts.post_id);
    assert(db.vote(u.person_id, c.counts.post_id) == Some(1i16) <==> exists|i: int|
            0 <= i < db.post_likes@.len() && (#[trigger] db.post_likes@[i]).post_id
                == c.counts.post_id && db.post_likes@[i].person_id == u.person_id
                && db.post_likes@[i].score == 1);
    assert(db.vote(u.person_id, c.counts.post_id) == Some((-1) as i16) <==> exists|i: int|
            0 <= i < db.post_likes@.len() && (#[trigger] db.post_likes@[i]).post_id
                == c.counts.post_id && db.post_likes@[i].person_id == u.person_id
                && db.post_likes@[i].score == -1);
}

/// Being an admin only adds to what a user is shown.
pub proof fn law_admins_see_more(
    db: &Database,
    q: PostQuery<'_>,
    site: Site,
    c: Candidate<'_>,
    u: &LocalUser,
    v: &LocalUser,
)
    requires
        db.wf(),
        *v == (LocalUser { admin: true, ..*u }),
        laws::listing(db, PostQuery { local_user: Some(u), ..q }, site).contains(c),
    ensures
        laws::listing(db, PostQuery { local_user: Some(v), ..q }, site).contains(c),
{
    laws::law_listing_complete(db, PostQuery { local_user: Some(u), ..q }, site);
    laws::law_listing_complete(db, PostQuery { local_user: Some(v), ..q }, site);
}

/// The sorts that do not look back a while list the same posts.
pub proof fn law_sorts_list_the_same(
    db: &Database,
    q: PostQuery<'_>,
    site: Site,
    c: Candidate<'_>,
    sort: Option<PostSortType>,
)
    requires
        db.wf(),
        sort is None || sort == Some(PostSortType::Active) || sort == Some(PostSortType::Hot)
            || sort == Some(PostSortType::Scaled) || sort == Some(PostSortType::Controversial)
            || sort == Some(PostSortType::New) || sort == Some(PostSortType::Old)
            || sort == Some(PostSortType::NewComments) || sort == Some(PostSortType::MostComments),
    ensures
        laws::listing(db, PostQuery { sort: sort, ..q }, site).contains(c)
            <==> laws::listing(
                db,
                PostQuery { sort: Some(PostSortType::TopAll), ..q },
                site,
            ).contains(c),
{
    laws::law_listing_complete(db, PostQuery { sort: sort, ..q }, site);
    laws::law_listing_complete(db, PostQuery { sort: Some(PostSortType::TopAll), ..q }, site);
}

/// A sort that looks back a while lists the posts of the sort over all time that were published
/// after the instant that lies that while back, and no others.
pub proof fn law_period_is_a_part(
    db: &Database,
    q: PostQuery<'_>,
    site: Site,
    c: Candidate<'_>,
    sort: PostSortType,
    span: Interval,
)
    requires
        db.wf(),
        sort == PostSortType::TopHour || sort == PostSortType::TopSixHour || sort
            == PostSortType::TopTwelveHour || sort == PostSortType::TopDay || sort
            == PostSortType::TopWeek || sort == PostSortType::TopMonth || sort
            == PostSortType::TopThreeMonths || sort == PostSortType::TopSixMonths || sort
            == PostSortType::TopNineMonths || sort == PostSortType::TopYear,
        span == (match sort {
            PostSortType::TopHour => Interval { microseconds: 3_600_000_000, days: 0, months: 0 },
            PostSortType::TopSixHour => Interval {
                microseconds: 21_600_000_000,
                days: 0,
                months: 0,
            },
            PostSortType::TopTwelveHour => Interval {
                microseconds: 43_200_000_000,
                days: 0,
                months: 0,
            },
            PostSortType::TopDay => Interval { microseconds: 0, days: 1, months: 0 },
            PostSortType::TopWeek => Interval { microseconds: 0, days: 7, months: 0 },
            PostSortType::TopMonth => Interval { microseconds: 0, days: 0, months: 1 },
            PostSortType::TopThreeMonths => Interval { microseconds: 0, days: 0, months: 3 },
            PostSortType::TopSixMonths => Interval { microseconds: 0, days: 0, months: 6 },
            PostSortType::TopNineMonths => Interval { microseconds: 0, days: 0, months: 9 },
            _ => Interval { microseconds: 0, days: 0, months: 12 },
        }),
    ensures
        laws::listing(db, PostQuery { sort: Some(sort), ..q }, site).contains(c)
            <==> laws::listing(
                db,
                PostQuery { sort: Some(PostSortType::TopAll), ..q },
                site,
            ).contains(c) && exists|i: int|
            0 <= i < db.cutoffs@.len() && (#[trigger] db.cutoffs@[i]).interval == span
                && c.counts.published > db.cutoffs@[i].at,
{
    laws::law_listing_complete(db, PostQuery { sort: Some(sort), ..q }, site);
    laws::law_listing_complete(db, PostQuery { sort: Some(PostSortType::TopAll), ..q }, site);
    facts::law_matches_and_instants(
        db,
        arbitrary(),
        arbitrary(),
        span,
        c.counts.published,
    );
}

/// The page, the page size, the cursors and the direction do not change what is listed.
pub proof fn law_place_does_not_matter(
    db: &Database,
    q: PostQuery<'_>,
    site: Site,
    c: Candidate<'_>,
    p: PostQuery<'_>,
)
    requires
        db.wf(),
        p == (PostQuery {
            page: p.page,
            limit: p.limit,
            page_after: p.page_after,
            page_before_or_equal: p.page_before_or_equal,
            page_back: p.page_back,
            ..q
        }),
    ensures
        laws::listing(db, p, site).contains(c) <==> laws::listing(db, q, site).contains(c),
{
    laws::law_listing_complete(db, p, site);
    laws::law_listing_complete(db, q, site);
}

/// What each condition of a plan asks of a row.
pub proof fn law_conditions(
    db: &Database,
    c: Candidate<'_>,
    flag: Flag,
    person: PersonId,
    post: PostId,
    community: CommunityId,
    user: LocalUserId,
    text: String,
    score: i16,
    span: Interval,
)
    ensures
        ({
            let set = match flag {
                Flag::PostRemoved => c.post.removed,
                Flag::PostDeleted => c.post.deleted,
                Flag::PostScheduled => c.post.scheduled_publish_time is Some,
                Flag::PostNsfw => c.post.nsfw,
                Flag::CommunityRemoved => c.community.removed,
                Flag::CommunityDeleted => c.community.deleted,
                Flag::CommunityNsfw => c.community.nsfw,
                Flag::CreatorIsBot => c.creator.bot_account,
            };
            let place = c.counts.community_id;
            let id = c.counts.post_id;
            let private = c.community.visibility == CommunityVisibility::Private;
            let public = c.community.visibility == CommunityVisibility::Public;
            let in_name = db.fuzzy(c.post.name@, text@);
            let in_body = c.post.body is Some && db.fuzzy(c.post.body->0@, text@);
            &&& Filter::Unset(flag).holds(db, c) == !set
            &&& Filter::UnsetOrBy(flag, person).holds(db, c) == (!set || c.post.creator_id
                == person)
            &&& Filter::PostIs(post).holds(db, c) == (id == post)
            &&& Filter::PublicCommunity.holds(db, c) == public
            &&& Filter::NotPrivateOrAccepted(person).holds(db, c) == (!private
                || db.follows_accepted(person, place))
            &&& Filter::InCommunity(community).holds(db, c) == (place == community)
            &&& Filter::By(person).holds(db, c) == (c.counts.creator_id == person)
            &&& Filter::NotBy(person).holds(db, c) == (c.counts.creator_id != person)
            &&& Filter::FollowedBy(person).holds(db, c) == db.follows(person, place)
            &&& Filter::LocalCommunity.holds(db, c) == c.community.local
            &&& Filter::NotHiddenOrFollowedBy(person).holds(db, c) == (!c.community.hidden
                || db.follows(person, place))
            &&& Filter::ModeratedBy(person).holds(db, c) == db.moderates(
                person,
                c.post.community_id,
            )
            &&& Filter::UrlIs(text).holds(db, c) == (c.post.url is Some && c.post.url->0@ == text@)
            &&& Filter::NameLike(text).holds(db, c) == in_name
            &&& Filter::NameOrBodyLike(text).holds(db, c) == (in_name || in_body)
            &&& Filter::NeitherRemovedNorDeleted.holds(db, c) == (!c.post.removed
                && !c.post.deleted)
            &&& Filter::NoComments.holds(db, c) == (c.counts.comments == 0)
            &&& Filter::Saved.holds(db, c) == (c.saved is Some)
            &&& Filter::NotReadBy(person).holds(db, c) == !db.has_read(person, id)
            &&& Filter::NotHiddenBy(person).holds(db, c) == !db.has_hidden(person, id)
            &&& Filter::VoteIs(person, score).holds(db, c) == (db.vote(person, id) == Some(score))
            &&& Filter::LanguageOf(user).holds(db, c) == db.reads_language(user, c.post.language_id)
            &&& Filter::CommunityNotBlockedBy(person).holds(db, c) == !db.blocks_community(
                person,
                place,
            )
            &&& Filter::InstanceNotBlockedBy(person).holds(db, c) == !db.blocks_instance(
                person,
                c.counts.instance_id,
            )
            &&& Filter::CreatorNotBlockedBy(person).holds(db, c) == !db.blocks_person(
                person,
                c.counts.creator_id,
            )
            &&& Filter::PublishedWithin(span).holds(db, c) == db.since(span, c.counts.published)
        }),
{
}

} // verus!
