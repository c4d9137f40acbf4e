//! What reading a post gives, and what a viewer is shown of it.

use vstd::prelude::*;

use crate::facts;
use crate::policy;
use crate::read;
use crate::scan;
use crate::tables::{
    Candidate, CommunityFollower, Database, ImageDetails, LocalUser, PersonPostAggregates,
};
use crate::types::{CommunityFollowerState, CommunityVisibility, PersonId, PostId};
use crate::view::PostView;

verus! {

/// The viewer of a post is the person behind the user; a visitor is nobody, for whom person -1
/// stands in, and person 0 among the followers of a private community, and no admin.
pub proof fn law_viewer(user: Option<&LocalUser>)
    ensures
        match user {
            Some(u) => {
                &&& policy::person_of(user) == Some(u.person_id)
                &&& policy::person_or_nobody(user) == u.person_id
                &&& policy::reader_of_private(user) == u.person_id
                &&& policy::is_admin(user) == u.admin
            },
            None => {
                &&& policy::person_of(user) is None
                &&& policy::person_or_nobody(user).0 == -1
                &&& policy::reader_of_private(user).0 == 0
                &&& !policy::is_admin(user)
            },
        },
{
}

/// What is read is the row of the post that was asked for, joined for the viewer.
pub proof fn law_read_row(
    db: &Database,
    id: PostId,
    user: Option<&LocalUser>,
    is_mod_or_admin: bool,
    c: Candidate<'_>,
)
    requires
        read::reads(db, id, user, is_mod_or_admin, c),
    ensures
        c.counts.post_id == id,
        db.has_candidate(
            match user {
                Some(u) => u.person_id,
                None => PersonId((-1) as i32),
            },
            c,
        ),
{
}

/// Rows are shown one by one, in their order, and each of them is.
pub proof fn law_every_row_is_shown(
    db: &Database,
    viewer: Option<PersonId>,
    rows: Seq<Candidate<'_>>,
    views: Seq<PostView<'_>>,
)
    ensures
        db.shows_all(viewer, rows, views) <==> {
            &&& views.len() == rows.len()
            &&& forall|i: int|
                0 <= i < rows.len() ==> db.shows(viewer, #[trigger] rows[i], #[trigger] views[i])
        },
{
}

/// One who does not moderate is shown a post that is removed or deleted, or whose community is,
/// only if it is their own. A visitor has no posts of their own; person -1, who stands in for
/// visitors, makes none.
pub proof fn law_read_hides_what_is_gone(
    db: &Database,
    id: PostId,
    user: Option<&LocalUser>,
    viewer: Option<PersonId>,
    c: Candidate<'_>,
    view: PostView<'_>,
)
    requires
        read::reads(db, id, user, false, c),
        db.shows(viewer, c, view),
    ensures
        view.post.removed || view.post.deleted || view.community.removed || view.community.deleted
            ==> match user {
            Some(u) => view.post.creator_id == u.person_id,
            None => view.post.creator_id.0 == -1,
        },
{
}

/// One who does not moderate is shown a post of a private community only as an accepted follower
/// who is logged in, and a visitor is shown posts of public communities alone.
pub proof fn law_read_respects_visibility(
    db: &Database,
    id: PostId,
    user: Option<&LocalUser>,
    is_mod_or_admin: bool,
    viewer: Option<PersonId>,
    c: Candidate<'_>,
    view: PostView<'_>,
)
    requires
        read::reads(db, id, user, is_mod_or_admin, c),
        db.shows(viewer, c, view),
    ensures
        view.community.visibility == CommunityVisibility::Private && !is_mod_or_admin ==> user
            is Some && exists|i: int|
            0 <= i < db.community_followers@.len() && (
            #[trigger] db.community_followers@[i]).person_id == user->0.person_id
                && db.community_followers@[i].community_id == view.counts.community_id
                && db.community_followers@[i].state
                == CommunityFollowerState::Accepted,
        user is None ==> view.community.visibility == CommunityVisibility::Public,
        view.counts.post_id == id,
{
    if user is Some {
        facts::law_persons_and_communities(db, user->0.person_id, c.counts.community_id);
    }
}

/// Whatever does not hide a post shows it: one who moderates and is logged in can read every post,
/// and any user can read a post that is neither removed nor deleted in a community that is not
/// private, or that has accepted them; a visitor can read such a post in a public community.
pub proof fn law_read_shows_the_rest(
    db: &Database,
    user: Option<&LocalUser>,
    is_mod_or_admin: bool,
    c: Candidate<'_>,
)
    requires
        db.has_candidate(
            match user {
                Some(u) => u.person_id,
                None => PersonId((-1) as i32),
            },
            c,
        ),
        user is None ==> c.community.visibility == CommunityVisibility::Public,
        is_mod_or_admin || {
            ||| !c.post.removed && !c.post.deleted && !c.community.removed && !c.community.deleted
            ||| user is Some && c.post.creator_id == user->0.person_id
        },
        is_mod_or_admin || c.community.visibility != CommunityVisibility::Private || (user is Some
            && db.follows_accepted(user->0.person_id, c.counts.community_id)),
    ensures
        read::reads(db, c.counts.post_id, user, is_mod_or_admin, c),
{
}

/// Moderating only adds to what one can read.
pub proof fn law_moderating_adds(
    db: &Database,
    id: PostId,
    user: Option<&LocalUser>,
    c: Candidate<'_>,
)
    requires
        read::reads(db, id, user, false, c),
    ensures
        read::reads(db, id, user, true, c),
{
}

/// A view shows the rows of the post, of its creator and of its community, its counts, the image at
/// its thumbnail if the image is known, and what the creator is in the community and on the site.
pub proof fn law_view_of_the_post(
    db: &Database,
    viewer: Option<PersonId>,
    c: Candidate<'_>,
    view: PostView<'_>,
)
    requires
        db.wf(),
        db.shows(viewer, c, view),
    ensures
        *view.post == *c.post,
        *view.creator == *c.creator,
        *view.community == *c.community,
        view.counts == *c.counts,
        match view.image_details {
            Some(image) => db.image_details@.contains(*image) && view.post.thumbnail_url is Some
                && image.link@ == view.post.thumbnail_url->0@,
            None => forall|i: int|
                0 <= i < db.image_details@.len() && view.post.thumbnail_url is Some ==> (
                #[trigger] db.image_details@[i]).link@ != view.post.thumbnail_url->0@,
        },
        view.creator_banned_from_community <==> exists|i: int|
            0 <= i < db.community_person_bans@.len() && (
            #[trigger] db.community_person_bans@[i]).person_id == view.counts.creator_id
                && db.community_person_bans@[i].community_id == view.counts.community_id,
        view.creator_is_moderator <==> exists|i: int|
            0 <= i < db.community_moderators@.len() && (
            #[trigger] db.community_moderators@[i]).person_id == view.counts.creator_id
                && db.community_moderators@[i].community_id == view.counts.community_id,
        view.creator_is_admin <==> exists|i: int|
            0 <= i < db.local_users@.len() && (#[trigger] db.local_users@[i]).person_id
                == view.counts.creator_id && db.local_users@[i].admin,
{
    facts::law_persons_and_communities(db, c.counts.creator_id, c.counts.community_id);
    let admin = LocalUser::is_admin_person(c.counts.creator_id);
    assert(forall|r: LocalUser| #[trigger]
        admin(r) == (r.person_id == c.counts.creator_id && r.admin));
    let at = ImageDetails::at(c.post.thumbnail_url);
    match view.image_details {
        Some(image) => {
            let i = choose|i: int|
                0 <= i < db.image_details@.len() && at(#[trigger] db.image_details@[i]);
            assert(db.image_details@[i] == *image);
        },
        None => {
            assert forall|i: int|
                0 <= i < db.image_details@.len() && view.post.thumbnail_url is Some implies (
            #[trigger] db.image_details@[i]).link@ != view.post.thumbnail_url->0@ by {
                assert(!at(db.image_details@[i]));
            }
        },
    }
}

/// A view shows a user how they stand to the post: whether they are banned from its community, how
/// far their request to follow it has come, whether they have saved, read and hidden the post,
/// whether they block its creator, their vote, and the number of comments they have not seen.
pub proof fn law_view_of_the_user(
    db: &Database,
    me: PersonId,
    c: Candidate<'_>,
    view: PostView<'_>,
)
    requires
        db.wf(),
        db.has_candidate(me, c),
        db.shows(Some(me), c, view),
    ensures
        view.banned_from_community <==> exists|i: int|
            0 <= i < db.community_person_bans@.len() && (
            #[trigger] db.community_person_bans@[i]).person_id == me
                && db.community_person_bans@[i].community_id == view.counts.community_id,
        view.subscribed is Some <==> exists|i: int|
            0 <= i < db.community_followers@.len() && (
            #[trigger] db.community_followers@[i]).person_id == me
                && db.community_followers@[i].community_id == view.counts.community_id,
        forall|i: int|
            0 <= i < db.community_followers@.len() && (
            #[trigger] db.community_followers@[i]).person_id == me
                && db.community_followers@[i].community_id == view.counts.community_id
                ==> view.subscribed == Some(db.community_followers@[i].state),
        view.saved <==> exists|i: int|
            0 <= i < db.post_saveds@.len() && (#[trigger] db.post_saveds@[i]).person_id == me
                && db.post_saveds@[i].post_id == view.counts.post_id,
        view.read <==> exists|i: int|
            0 <= i < db.post_reads@.len() && (#[trigger] db.post_reads@[i]).person_id == me
                && db.post_reads@[i].post_id == view.counts.post_id,
        view.hidden <==> exists|i: int|
            0 <= i < db.post_hides@.len() && (#[trigger] db.post_hides@[i]).person_id == me
                && db.post_hides@[i].post_id == view.counts.post_id,
        view.creator_blocked <==> exists|i: int|
            0 <= i < db.person_blocks@.len() && (#[trigger] db.person_blocks@[i]).person_id == me
                && db.person_blocks@[i].target_id == view.counts.creator_id,
        view.my_vote is Some <==> exists|i: int|
            0 <= i < db.post_likes@.len() && (#[trigger] db.post_likes@[i]).person_id == me
                && db.post_likes@[i].post_id == view.counts.post_id,
        forall|i: int|
            0 <= i < db.post_likes@.len() && (#[trigger] db.post_likes@[i]).person_id == me
                && db.post_likes@[i].post_id == view.counts.post_id ==> view.my_vote == Some(
                db.post_likes@[i].score,
            ),
        forall|i: int|
            0 <= i < db.person_post_aggregates@.len() && (
            #[trigger] db.person_post_aggregates@[i]).person_id == me
                && db.person_post_aggregates@[i].post_id == view.counts.post_id
                ==> view.unread_comments == view.counts.comments
                - db.person_post_aggregates@[i].read_comments,
        (forall|i: int|
            0 <= i < db.person_post_aggregates@.len() ==> (
            #[trigger] db.person_post_aggregates@[i]).person_id != me
                || db.person_post_aggregates@[i].post_id != view.counts.post_id)
            ==> view.unread_comments == view.counts.comments,
{
    let counts = *c.counts;
    facts::law_persons_and_communities(db, me, counts.community_id);
    facts::law_persons_and_posts(db, me, counts.post_id);
    facts::law_join(db, me, c);
    facts::law_blocks_and_languages(
        db,
        me,
        counts.creator_id,
        counts.instance_id,
        arbitrary(),
        arbitrary(),
    );
    let follower = CommunityFollower::pair(counts.community_id, me);
    assert forall|i: int|
        0 <= i < db.community_followers@.len() && (
        #[trigger] db.community_followers@[i]).person_id == me
            && db.community_followers@[i].community_id == counts.community_id
            implies view.subscribed
        == Some(db.community_followers@[i].state) by {
        facts::lemma_lookup(db.community_followers@, follower, i);
    }
    if view.subscribed is Some {
        assert(scan::any(db.community_followers@, follower));
    }
    assert forall|i: int|
        0 <= i < db.post_likes@.len() && (#[trigger] db.post_likes@[i]).person_id == me
            && db.post_likes@[i].post_id == counts.post_id implies view.my_vote == Some(
        db.post_likes@[i].score,
    ) by {
        assert(db.vote(me, counts.post_id) == Some(db.post_likes@[i].score));
    }
    if view.my_vote is Some {
        assert(db.vote(me, counts.post_id) == Some(view.my_vote->0));
    }
    let seen = PersonPostAggregates::pair(counts.post_id, me);
    assert forall|i: int|
        0 <= i < db.person_post_aggregates@.len() && (
        #[trigger] db.person_post_aggregates@[i]).person_id == me
            && db.person_post_aggregates@[i].post_id == counts.post_id implies view.unread_comments
        == counts.comments - db.person_post_aggregates@[i].read_comments by {
        facts::lemma_lookup(db.person_post_aggregates@, seen, i);
    }
    if forall|i: int|
        0 <= i < db.person_post_aggregates@.len() ==> (
        #[trigger] db.person_post_aggregates@[i]).person_id != me
            || db.person_post_aggregates@[i].post_id != counts.post_id {
        assert(!scan::any(db.person_post_aggregates@, seen));
    }
    if let Some(saved) = c.saved {
        let i = choose|i: int| 0 <= i < db.post_saveds@.len() && db.post_saveds@[i] == *saved;
        assert(db.post_saveds@[i].person_id == me);
    }
}

/// To a visitor a view is blank where it concerns the viewer, and every comment is unread.
pub proof fn law_view_of_a_visitor(db: &Database, c: Candidate<'_>, view: PostView<'_>)
    requires
        db.shows(None, c, view),
    ensures
        !view.banned_from_community,
        view.subscribed is None,
        !view.read,
        !view.hidden,
        !view.creator_blocked,
        view.my_vote is None,
        view.unread_comments == view.counts.comments,
{
}

} // verus!
