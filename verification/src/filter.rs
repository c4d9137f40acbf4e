//! The conditions that a query puts on the rows of the join.

use vstd::prelude::*;

use crate::tables::{Candidate, Database, Interval};
use crate::types::{CommunityId, CommunityVisibility, LocalUserId, PersonId, PostId};

verus! {

/// A mark on a post, on its community or on its creator.
#[derive(Clone, Copy, PartialEq, Eq, Structural, Debug)]
pub enum Flag {
    PostRemoved,
    PostDeleted,
    PostScheduled,
    PostNsfw,
    CommunityRemoved,
    CommunityDeleted,
    CommunityNsfw,
    CreatorIsBot,
}

impl Flag {
    /// The row carries the mark.
    pub open spec fn set_on(self, c: Candidate<'_>) -> bool {
        match self {
            Flag::PostRemoved => c.post.removed,
            Flag::PostDeleted => c.post.deleted,
            Flag::PostScheduled => c.post.scheduled_publish_time is Some,
            Flag::PostNsfw => c.post.nsfw,
            Flag::CommunityRemoved => c.community.removed,
            Flag::CommunityDeleted => c.community.deleted,
            Flag::CommunityNsfw => c.community.nsfw,
            Flag::CreatorIsBot => c.creator.bot_account,
        }
    }

    /// Tells whether the row carries the mark.
    pub fn is_set_on(self, c: &Candidate<'_>) -> (set: bool)
        ensures
            set == self.set_on(*c),
    {
        match self {
            Flag::PostRemoved => c.post.removed,
            Flag::PostDeleted => c.post.deleted,
            Flag::PostScheduled => c.post.scheduled_publish_time.is_some(),
            Flag::PostNsfw => c.post.nsfw,
            Flag::CommunityRemoved => c.community.removed,
            Flag::CommunityDeleted => c.community.deleted,
            Flag::CommunityNsfw => c.community.nsfw,
            Flag::CreatorIsBot => c.creator.bot_account,
        }
    }
}

/// One condition on a row.
#[derive(PartialEq, Eq, Debug)]
pub enum Filter {
    /// The post is this one.
    PostIs(PostId),
    /// The mark is not set.
    Unset(Flag),
    /// The mark is not set, or the post is by this person.
    UnsetOrBy(Flag, PersonId),
    /// The community is visible to everybody.
    PublicCommunity,
    /// The community is not private, or this person is an accepted follower.
    NotPrivateOrAccepted(PersonId),
    /// The post is in this community.
    InCommunity(CommunityId),
    /// The post is by this person.
    By(PersonId),
    /// The post is not by this person.
    NotBy(PersonId),
    /// This person follows the community.
    FollowedBy(PersonId),
    /// The community lives on this site.
    LocalCommunity,
    /// The community is not hidden, or this person follows it.
    NotHiddenOrFollowedBy(PersonId),
    /// This person moderates the community.
    ModeratedBy(PersonId),
    /// The post links to exactly this address.
    UrlIs(String),
    /// The title of the post is a fuzzy match for the term.
    NameLike(String),
    /// The title or the body of the post is a fuzzy match for the term.
    NameOrBodyLike(String),
    /// The post is neither removed nor deleted.
    NeitherRemovedNorDeleted,
    /// The post has no comments.
    NoComments,
    /// The viewer has saved the post.
    Saved,
    /// This person has not read the post.
    NotReadBy(PersonId),
    /// This person has not hidden the post.
    NotHiddenBy(PersonId),
    /// This is the vote of this person on the post.
    VoteIs(PersonId, i16),
    /// This user reads the language of the post.
    LanguageOf(LocalUserId),
    /// This person does not block the community.
    CommunityNotBlockedBy(PersonId),
    /// This person does not block the instance of the community.
    InstanceNotBlockedBy(PersonId),
    /// This person does not block the creator.
    CreatorNotBlockedBy(PersonId),
    /// The post is younger than the interval.
    PublishedWithin(Interval),
}

impl Filter {
    /// The row meets the condition.
    pub open spec fn holds(self, db: &Database, c: Candidate<'_>) -> bool {
        match self {
            Filter::PostIs(id) => c.counts.post_id == id,
            Filter::Unset(flag) => !flag.set_on(c),
            Filter::UnsetOrBy(flag, person) => !flag.set_on(c) || c.post.creator_id == person,
            Filter::PublicCommunity => c.community.visibility == CommunityVisibility::Public,
            Filter::NotPrivateOrAccepted(person) => {
                ||| c.community.visibility != CommunityVisibility::Private
                ||| db.follows_accepted(person, c.counts.community_id)
            },
            Filter::InCommunity(id) => c.counts.community_id == id,
            Filter::By(person) => c.counts.creator_id == person,
            Filter::NotBy(person) => c.counts.creator_id != person,
            Filter::FollowedBy(person) => db.follows(person, c.counts.community_id),
            Filter::LocalCommunity => c.community.local,
            Filter::NotHiddenOrFollowedBy(person) => {
                ||| !c.community.hidden
                ||| db.follows(person, c.counts.community_id)
            },
            Filter::ModeratedBy(person) => db.moderates(person, c.post.community_id),
            Filter::UrlIs(url) => c.post.url is Some && c.post.url->0@ == url@,
            Filter::NameLike(term) => db.fuzzy(c.post.name@, term@),
            Filter::NameOrBodyLike(term) => {
                ||| db.fuzzy(c.post.name@, term@)
                ||| c.post.body is Some && db.fuzzy(c.post.body->0@, term@)
            },
            Filter::NeitherRemovedNorDeleted => !(c.post.removed || c.post.deleted),
            Filter::NoComments => c.counts.comments == 0,
            Filter::Saved => c.saved is Some,
            Filter::NotReadBy(person) => !db.has_read(person, c.counts.post_id),
            Filter::NotHiddenBy(person) => !db.has_hidden(person, c.counts.post_id),
            Filter::VoteIs(person, score) => db.vote(person, c.counts.post_id) == Some(score),
            Filter::LanguageOf(user) => db.reads_language(user, c.post.language_id),
            Filter::CommunityNotBlockedBy(person) => !db.blocks_community(
                person,
                c.counts.community_id,
            ),
            Filter::InstanceNotBlockedBy(person) => !db.blocks_instance(
                person,
                c.counts.instance_id,
            ),
            Filter::CreatorNotBlockedBy(person) => !db.blocks_person(person, c.counts.creator_id),
            Filter::PublishedWithin(interval) => db.since(interval, c.counts.published),
        }
    }

    /// Tells whether the row meets the condition.
    pub fn matches(&self, db: &Database, c: &Candidate<'_>) -> (met: bool)
        requires
            db.wf(),
        ensures
            met == self.holds(db, *c),
    {
        match self {
            Filter::PostIs(id) => c.counts.post_id == *id,
            Filter::Unset(flag) => !flag.is_set_on(c),
            Filter::UnsetOrBy(flag, person) => !flag.is_set_on(c) || c.post.creator_id == *person,
            Filter::PublicCommunity => c.community.visibility == CommunityVisibility::Public,
            Filter::NotPrivateOrAccepted(person) => c.community.visibility
                != CommunityVisibility::Private || db.is_accepted_follower(
                *person,
                c.counts.community_id,
            ),
            Filter::InCommunity(id) => c.counts.community_id == *id,
            Filter::By(person) => c.counts.creator_id == *person,
            Filter::NotBy(person) => c.counts.creator_id != *person,
            Filter::FollowedBy(person) => db.is_follower(*person, c.counts.community_id),
            Filter::LocalCommunity => c.community.local,
            Filter::NotHiddenOrFollowedBy(person) => !c.community.hidden || db.is_follower(
                *person,
                c.counts.community_id,
            ),
            Filter::ModeratedBy(person) => db.is_moderator(*person, c.post.community_id),
            Filter::UrlIs(url) => match &c.post.url {
                Some(own) => *own == *url,
                None => false,
            },
            Filter::NameLike(term) => db.is_fuzzy_match(&c.post.name, term),
            Filter::NameOrBodyLike(term) => db.is_fuzzy_match(&c.post.name, term) || (
            match &c.post.body {
                Some(body) => db.is_fuzzy_match(body, term),
                None => false,
            }),
            Filter::NeitherRemovedNorDeleted => !(c.post.removed || c.post.deleted),
            Filter::NoComments => c.counts.comments == 0,
            Filter::Saved => c.saved.is_some(),
            Filter::NotReadBy(person) => !db.is_read(*person, c.counts.post_id),
            Filter::NotHiddenBy(person) => !db.is_hidden(*person, c.counts.post_id),
            Filter::VoteIs(person, score) => match db.vote_of(*person, c.counts.post_id) {
                Some(own) => own == *score,
                None => false,
            },
            Filter::LanguageOf(user) => db.is_language_read(*user, c.post.language_id),
            Filter::CommunityNotBlockedBy(person) => !db.is_community_blocked(
                *person,
                c.counts.community_id,
            ),
            Filter::InstanceNotBlockedBy(person) => !db.is_instance_blocked(
                *person,
                c.counts.instance_id,
            ),
            Filter::CreatorNotBlockedBy(person) => !db.is_person_blocked(
                *person,
                c.counts.creator_id,
            ),
            Filter::PublishedWithin(interval) => db.is_since(*interval, c.counts.published),
        }
    }
}

/// The row meets every one of the conditions.
pub open spec fn all_hold(filters: Seq<Filter>, db: &Database, c: Candidate<'_>) -> bool {
    forall|i: int| 0 <= i < filters.len() ==> (#[trigger] filters[i]).holds(db, c)
}

/// Adding a condition admits the rows that were admitted and meet it.
pub broadcast proof fn lemma_push_holds(
    filters: Seq<Filter>,
    f: Filter,
    db: &Database,
    c: Candidate<'_>,
)
    ensures
        #[trigger] all_hold(filters.push(f), db, c) == (all_hold(filters, db, c) && f.holds(db, c)),
{
    let more = filters.push(f);
    if all_hold(more, db, c) {
        assert forall|i: int| 0 <= i < filters.len() implies (#[trigger] filters[i]).holds(
            db,
            c,
        ) by {
            assert(more[i].holds(db, c));
        }
        assert(more[filters.len() as int].holds(db, c));
    }
    if all_hold(filters, db, c) && f.holds(db, c) {
        assert forall|i: int| 0 <= i < more.len() implies (#[trigger] more[i]).holds(db, c) by {
            if i < filters.len() {
                assert(filters[i].holds(db, c));
            }
        }
    }
}

/// Tells whether the row meets every one of the conditions.
pub fn all_match(filters: &Vec<Filter>, db: &Database, c: &Candidate<'_>) -> (met: bool)
    requires
        db.wf(),
    ensures
        met == all_hold(filters@, db, *c),
{
    let mut i: usize = 0;
    while i < filters.len()
        invariant
            i <= filters.len(),
            db.wf(),
            forall|j: int| 0 <= j < i ==> (#[trigger] filters@[j]).holds(db, *c),
        decreases filters.len() - i,
    {
        if !filters[i].matches(db, c) {
            assert(!filters@[i as int].holds(db, *c));
            return false;
        }
        i += 1;
    }
    true
}

} // verus!
