//! What a viewer is shown of a post.

use vstd::prelude::*;

use crate::scan;
use crate::scan::{any_row, find_row};
use crate::tables::{
    Candidate, Community, CommunityFollower, Database, ImageDetails, LocalUser, Person,
    PersonPostAggregates, Post, PostAggregates, PostSaved,
};
use crate::types::{CommunityFollowerState, PersonId};

verus! {

/// A post as a viewer sees it.
#[derive(Clone, Copy, PartialEq, Eq, Debug)]
pub struct PostView<'a> {
    pub post: &'a Post,
    pub creator: &'a Person,
    pub community: &'a Community,
    pub image_details: Option<&'a ImageDetails>,
    pub creator_banned_from_community: bool,
    pub banned_from_community: bool,
    pub creator_is_moderator: bool,
    pub creator_is_admin: bool,
    pub counts: PostAggregates,
    /// How far the viewer's request to follow the community has come.
    pub subscribed: Option<CommunityFollowerState>,
    pub saved: bool,
    pub read: bool,
    pub hidden: bool,
    pub creator_blocked: bool,
    pub my_vote: Option<i16>,
    pub unread_comments: i64,
}

impl Database {
    /// The details of the image that the post shows.
    pub open spec fn image_of(&self, post: Post) -> Option<ImageDetails> {
        scan::lookup(self.image_details@, ImageDetails::at(post.thumbnail_url))
    }

    /// How far the person's request to follow the community of `counts` has come.
    pub open spec fn subscription(&self, person: PersonId, counts: PostAggregates) -> Option<
        CommunityFollowerState,
    > {
        match scan::lookup(
            self.community_followers@,
            CommunityFollower::pair(counts.community_id, person),
        ) {
            Some(follower) => Some(follower.state),
            None => None,
        }
    }

    /// The number of comments that the person has not seen.
    pub open spec fn unread(&self, person: PersonId, counts: PostAggregates) -> int {
        match scan::lookup(
            self.person_post_aggregates@,
            PersonPostAggregates::pair(counts.post_id, person),
        ) {
            Some(seen) => counts.comments - seen.read_comments,
            None => counts.comments as int,
        }
    }

    /// `view` shows the row `c` to the viewer. To one who is not logged in, what concerns the
    /// viewer is blank; whether the post is saved goes by the row.
    pub open spec fn shows(
        &self,
        viewer: Option<PersonId>,
        c: Candidate<'_>,
        view: PostView<'_>,
    ) -> bool {
        let counts = *c.counts;
        &&& view.post == c.post
        &&& view.creator == c.creator
        &&& view.community == c.community
        &&& view.counts == counts
        &&& (match view.image_details {
            Some(image) => Some(*image),
            None => None,
        }) == self.image_of(*c.post)
        &&& view.creator_banned_from_community == self.banned(
            counts.creator_id,
            counts.community_id,
        )
        &&& view.creator_is_moderator == self.moderates(counts.creator_id, counts.community_id)
        &&& view.creator_is_admin == scan::any(
            self.local_users@,
            LocalUser::is_admin_person(counts.creator_id),
        )
        &&& view.saved == (c.saved is Some)
        &&& match viewer {
            Some(me) => {
                &&& view.banned_from_community == self.banned(me, counts.community_id)
                &&& view.subscribed == self.subscription(me, counts)
                &&& view.read == self.has_read(me, counts.post_id)
                &&& view.hidden == self.has_hidden(me, counts.post_id)
                &&& view.creator_blocked == self.blocks_person(me, counts.creator_id)
                &&& view.my_vote == self.vote(me, counts.post_id)
                &&& view.unread_comments == self.unread(me, counts)
            },
            None => {
                &&& !view.banned_from_community
                &&& view.subscribed is None
                &&& !view.read
                &&& !view.hidden
                &&& !view.creator_blocked
                &&& view.my_vote is None
                &&& view.unread_comments == counts.comments
            },
        }
    }

    /// `views` shows the rows of `rows`, one after the other.
    pub open spec fn shows_all(
        &self,
        viewer: Option<PersonId>,
        rows: Seq<Candidate<'_>>,
        views: Seq<PostView<'_>>,
    ) -> bool {
        &&& views.len() == rows.len()
        &&& forall|i: int|
            0 <= i < rows.len() ==> self.shows(viewer, #[trigger] rows[i], #[trigger] views[i])
    }

    /// Makes the row of the join for the counts of a post.
    pub fn join<'a>(&'a self, bookmarks: PersonId, counts: &'a PostAggregates) -> (row: Option<
        Candidate<'a>,
    >)
        requires
            self.wf(),
        ensures
            row == self.joined(bookmarks, *counts),
    {
        let has_post = |r: &Post| -> (b: bool)
            ensures
                b == (r.id == counts.post_id),
        { r.id == counts.post_id };
        let post = find_row(&self.posts, has_post, Ghost(Post::has_id(counts.post_id)));
        let has_person = |r: &Person| -> (b: bool)
            ensures
                b == (r.id == counts.creator_id),
        { r.id == counts.creator_id };
        let creator = find_row(
            &self.persons,
            has_person,
            Ghost(Person::has_id(counts.creator_id)),
        );
        let has_community = |r: &Community| -> (b: bool)
            ensures
                b == (r.id == counts.community_id),
        { r.id == counts.community_id };
        let community = find_row(
            &self.communities,
            has_community,
            Ghost(Community::has_id(counts.community_id)),
        );
        let has_saved = |r: &PostSaved| -> (b: bool)
            ensures
                b == (r.post_id == counts.post_id && r.person_id == bookmarks),
        { r.post_id == counts.post_id && r.person_id == bookmarks };
        let saved = find_row(
            &self.post_saveds,
            has_saved,
            Ghost(PostSaved::pair(counts.post_id, bookmarks)),
        );
        match (post, creator, community) {
            (Some(post), Some(creator), Some(community)) => Some(
                Candidate { counts, post, creator, community, saved },
            ),
            _ => None,
        }
    }

    /// Looks up the details of the image that the post shows.
    pub fn find_image<'a>(&'a self, post: &Post) -> (image: Option<&'a ImageDetails>)
        requires
            self.wf(),
        ensures
            (match image {
                Some(i) => Some(*i),
                None => None,
            }) == self.image_of(*post),
    {
        let at = |r: &ImageDetails| -> (b: bool)
            ensures
                b == (post.thumbnail_url is Some && r.link@ == post.thumbnail_url->0@),
        {
            match &post.thumbnail_url {
                Some(link) => r.link == *link,
                None => false,
            }
        };
        find_row(&self.image_details, at, Ghost(ImageDetails::at(post.thumbnail_url)))
    }

    /// Tells whether the person is an admin of this site.
    pub fn is_admin(&self, person: PersonId) -> (found: bool)
        ensures
            found == scan::any(self.local_users@, LocalUser::is_admin_person(person)),
    {
        let test = |r: &LocalUser| -> (b: bool)
            ensures
                b == (r.person_id == person && r.admin),
        { r.person_id == person && r.admin };
        any_row(&self.local_users, test, Ghost(LocalUser::is_admin_person(person)))
    }

    /// Looks up how far the person's request to follow the community has come.
    pub fn find_subscription(&self, person: PersonId, counts: &PostAggregates) -> (state: Option<
        CommunityFollowerState,
    >)
        requires
            self.wf(),
        ensures
            state == self.subscription(person, *counts),
    {
        let test = |r: &CommunityFollower| -> (b: bool)
            ensures
                b == (r.community_id == counts.community_id && r.person_id == person),
        { r.community_id == counts.community_id && r.person_id == person };
        match find_row(
            &self.community_followers,
            test,
            Ghost(CommunityFollower::pair(counts.community_id, person)),
        ) {
            Some(follower) => Some(follower.state),
            None => None,
        }
    }

    /// Counts the comments that the person has not seen.
    pub fn count_unread(&self, person: PersonId, counts: &PostAggregates) -> (unread: i64)
        requires
            self.wf(),
            self.post_aggregates@.contains(*counts),
        ensures
            unread == self.unread(person, *counts),
    {
        let test = |r: &PersonPostAggregates| -> (b: bool)
            ensures
                b == (r.post_id == counts.post_id && r.person_id == person),
        { r.post_id == counts.post_id && r.person_id == person };
        match find_row(
            &self.person_post_aggregates,
            test,
            Ghost(PersonPostAggregates::pair(counts.post_id, person)),
        ) {
            Some(seen) => {
                assert(i64::MIN <= counts.comments - seen.read_comments <= i64::MAX) by {
                    let i = choose|i: int|
                        0 <= i < self.post_aggregates@.len() && self.post_aggregates@[i] == *counts;
                    let p = PersonPostAggregates::pair(counts.post_id, person);
                    let j = choose|j: int|
                        0 <= j < self.person_post_aggregates@.len() && p(
                            #[trigger] self.person_post_aggregates@[j],
                        );
                    assert(self.post_aggregates@[i].post_id
                        == self.person_post_aggregates@[j].post_id);
                }
                counts.comments - seen.read_comments
            },
            None => counts.comments,
        }
    }

    /// Makes what the viewer is shown of the row.
    pub fn view<'a>(&'a self, viewer: Option<PersonId>, c: &Candidate<'a>) -> (view: PostView<'a>)
        requires
            self.wf(),
            self.post_aggregates@.contains(*c.counts),
        ensures
            self.shows(viewer, *c, view),
    {
        let counts = *c.counts;
        let mut view = PostView {
            post: c.post,
            creator: c.creator,
            community: c.community,
            image_details: self.find_image(c.post),
            creator_banned_from_community: self.is_banned(counts.creator_id, counts.community_id),
            banned_from_community: false,
            creator_is_moderator: self.is_moderator(counts.creator_id, counts.community_id),
            creator_is_admin: self.is_admin(counts.creator_id),
            counts,
            subscribed: None,
            saved: c.saved.is_some(),
            read: false,
            hidden: false,
            creator_blocked: false,
            my_vote: None,
            unread_comments: counts.comments,
        };
        if let Some(me) = viewer {
            view.banned_from_community = self.is_banned(me, counts.community_id);
            view.subscribed = self.find_subscription(me, &counts);
            view.read = self.is_read(me, counts.post_id);
            view.hidden = self.is_hidden(me, counts.post_id);
            view.creator_blocked = self.is_person_blocked(me, counts.creator_id);
            view.my_vote = self.vote_of(me, counts.post_id);
            view.unread_comments = self.count_unread(me, &counts);
        }
        view
    }
}

} // verus!
