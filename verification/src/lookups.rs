//! Searching the tables of a snapshot.

use vstd::prelude::*;

use crate::scan;
use crate::scan::{any_row, find_row};
use crate::tables::{
    CommunityFollower, CommunityPerson, Cutoff, Database, FuzzyMatch, InstanceBlock, Interval,
    LocalUserLanguage, PersonBlock, PostLike, PostPerson,
};
use crate::types::{
    CommunityFollowerState, CommunityId, InstanceId, LanguageId, LocalUserId, PersonId, PostId,
    Timestamp,
};

verus! {

/// Tells whether the table holds the pair.
fn has_community_person(
    rows: &Vec<CommunityPerson>,
    community_id: CommunityId,
    person_id: PersonId,
) -> (found: bool)
    ensures
        found == scan::any(rows@, CommunityPerson::pair(community_id, person_id)),
{
    let test = |r: &CommunityPerson| -> (b: bool)
        ensures
            b == (r.community_id == community_id && r.person_id == person_id),
    { r.community_id == community_id && r.person_id == person_id };
    any_row(rows, test, Ghost(CommunityPerson::pair(community_id, person_id)))
}

/// Tells whether the table holds the pair.
fn has_post_person(rows: &Vec<PostPerson>, post_id: PostId, person_id: PersonId) -> (found: bool)
    ensures
        found == scan::any(rows@, PostPerson::pair(post_id, person_id)),
{
    let test = |r: &PostPerson| -> (b: bool)
        ensures
            b == (r.post_id == post_id && r.person_id == person_id),
    { r.post_id == post_id && r.person_id == person_id };
    any_row(rows, test, Ghost(PostPerson::pair(post_id, person_id)))
}

impl Database {
    /// Tells whether the person follows the community.
    pub fn is_follower(&self, person_id: PersonId, community_id: CommunityId) -> (found: bool)
        ensures
            found == self.follows(person_id, community_id),
    {
        let test = |r: &CommunityFollower| -> (b: bool)
            ensures
                b == (r.community_id == community_id && r.person_id == person_id),
        { r.community_id == community_id && r.person_id == person_id };
        any_row(
            &self.community_followers,
            test,
            Ghost(CommunityFollower::pair(community_id, person_id)),
        )
    }

    /// Tells whether the person is an accepted follower of the community.
    pub fn is_accepted_follower(&self, person_id: PersonId, community_id: CommunityId) -> (found:
        bool)
        ensures
            found == self.follows_accepted(person_id, community_id),
    {
        let test = |r: &CommunityFollower| -> (b: bool)
            ensures
                b == (r.community_id == community_id && r.person_id == person_id && r.state
                    == CommunityFollowerState::Accepted),
        {
            r.community_id == community_id && r.person_id == person_id && r.state
                == CommunityFollowerState::Accepted
        };
        any_row(
            &self.community_followers,
            test,
            Ghost(CommunityFollower::accepted(community_id, person_id)),
        )
    }

    /// Tells whether the person moderates the community.
    pub fn is_moderator(&self, person_id: PersonId, community_id: CommunityId) -> (found: bool)
        ensures
            found == self.moderates(person_id, community_id),
    {
        has_community_person(&self.community_moderators, community_id, person_id)
    }

    /// Tells whether the person is banned from the community.
    pub fn is_banned(&self, person_id: PersonId, community_id: CommunityId) -> (found: bool)
        ensures
            found == self.banned(person_id, community_id),
    {
        has_community_person(&self.community_person_bans, community_id, person_id)
    }

    /// Tells whether the person blocks the community.
    pub fn is_community_blocked(&self, person_id: PersonId, community_id: CommunityId) -> (found:
        bool)
        ensures
            found == self.blocks_community(person_id, community_id),
    {
        has_community_person(&self.community_blocks, community_id, person_id)
    }

    /// Tells whether the person has read the post.
    pub fn is_read(&self, person_id: PersonId, post_id: PostId) -> (found: bool)
        ensures
            found == self.has_read(person_id, post_id),
    {
        has_post_person(&self.post_reads, post_id, person_id)
    }

    /// Tells whether the person has hidden the post.
    pub fn is_hidden(&self, person_id: PersonId, post_id: PostId) -> (found: bool)
        ensures
            found == self.has_hidden(person_id, post_id),
    {
        has_post_person(&self.post_hides, post_id, person_id)
    }

    /// Tells whether `person_id` blocks `target_id`.
    pub fn is_person_blocked(&self, person_id: PersonId, target_id: PersonId) -> (found: bool)
        ensures
            found == self.blocks_person(person_id, target_id),
    {
        let test = |r: &PersonBlock| -> (b: bool)
            ensures
                b == (r.person_id == person_id && r.target_id == target_id),
        { r.person_id == person_id && r.target_id == target_id };
        any_row(&self.person_blocks, test, Ghost(PersonBlock::pair(person_id, target_id)))
    }

    /// Tells whether the person blocks the instance.
    pub fn is_instance_blocked(&self, person_id: PersonId, instance_id: InstanceId) -> (found: bool)
        ensures
            found == self.blocks_instance(person_id, instance_id),
    {
        let test = |r: &InstanceBlock| -> (b: bool)
            ensures
                b == (r.person_id == person_id && r.instance_id == instance_id),
        { r.person_id == person_id && r.instance_id == instance_id };
        any_row(&self.instance_blocks, test, Ghost(InstanceBlock::pair(person_id, instance_id)))
    }

    /// Tells whether the user reads the language.
    pub fn is_language_read(&self, local_user_id: LocalUserId, language_id: LanguageId) -> (found:
        bool)
        ensures
            found == self.reads_language(local_user_id, language_id),
    {
        let test = |r: &LocalUserLanguage| -> (b: bool)
            ensures
                b == (r.local_user_id == local_user_id && r.language_id == language_id),
        { r.local_user_id == local_user_id && r.language_id == language_id };
        any_row(
            &self.local_user_languages,
            test,
            Ghost(LocalUserLanguage::pair(local_user_id, language_id)),
        )
    }

    /// The vote of the person on the post.
    pub fn vote_of(&self, person_id: PersonId, post_id: PostId) -> (vote: Option<i16>)
        requires
            self.wf(),
        ensures
            vote == self.vote(person_id, post_id),
    {
        let test = |r: &PostLike| -> (b: bool)
            ensures
                b == (r.post_id == post_id && r.person_id == person_id),
        { r.post_id == post_id && r.person_id == person_id };
        match find_row(&self.post_likes, test, Ghost(PostLike::pair(post_id, person_id))) {
            Some(like) => Some(like.score),
            None => None,
        }
    }

    /// Tells whether `text` is a fuzzy match for `term`.
    pub fn is_fuzzy_match(&self, text: &String, term: &String) -> (found: bool)
        ensures
            found == self.fuzzy(text@, term@),
    {
        let test = |r: &FuzzyMatch| -> (b: bool)
            ensures
                b == (r.text@ == text@ && r.term@ == term@),
        { r.text == *text && r.term == *term };
        any_row(&self.fuzzy_matches, test, Ghost(FuzzyMatch::pair(text@, term@)))
    }

    /// Tells whether `published` is later than the instant that lies `interval` back.
    pub fn is_since(&self, interval: Interval, published: Timestamp) -> (later: bool)
        requires
            self.wf(),
        ensures
            later == self.since(interval, published),
    {
        let test = |r: &Cutoff| -> (b: bool)
            ensures
                b == (r.interval == interval),
        { r.interval == interval };
        match find_row(&self.cutoffs, test, Ghost(Cutoff::of(interval))) {
            Some(cutoff) => published > cutoff.at,
            None => false,
        }
    }
}

} // verus!
