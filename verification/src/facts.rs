//! What the lookups in the tables mean, row by row.

use vstd::prelude::*;

use crate::scan;
use crate::tables::{
    Candidate, Community, CommunityFollower, CommunityPerson, Cutoff, Database, FuzzyMatch,
    ImageDetails, InstanceBlock, Interval, LocalUser, LocalUserLanguage, Person, PersonBlock,
    PersonPostAggregates, Post, PostAggregates, PostLike, PostPerson, PostSaved,
};
use crate::types::{
    CommunityFollowerState, CommunityId, InstanceId, LanguageId, LocalUserId, PersonId, PostId,
    Timestamp,
};

verus! {

/// The row that is looked up is the one that satisfies the condition.
pub(crate) proof fn lemma_lookup<T>(rows: Seq<T>, p: spec_fn(T) -> bool, i: int)
    requires
        0 <= i < rows.len(),
        p(rows[i]),
        scan::at_most_one(rows, p),
    ensures
        scan::lookup(rows, p) == Some(rows[i]),
{
    assert(scan::any(rows, p));
}

/// A snapshot is in order just where its keys are unique and unread comments can be counted.
pub proof fn law_snapshot_in_order(db: &Database)
    ensures
        db.wf() <==> {
            &&& forall|i: int, j: int|
                0 <= i < j < db.post_aggregates@.len() ==> (
                #[trigger] db.post_aggregates@[i]).post_id != (
                #[trigger] db.post_aggregates@[j]).post_id
            &&& forall|i: int, j: int|
                0 <= i < j < db.posts@.len() ==> (#[trigger] db.posts@[i]).id != (
                #[trigger] db.posts@[j]).id
            &&& forall|i: int, j: int|
                0 <= i < j < db.persons@.len() ==> (#[trigger] db.persons@[i]).id != (
                #[trigger] db.persons@[j]).id
            &&& forall|i: int, j: int|
                0 <= i < j < db.communities@.len() ==> (#[trigger] db.communities@[i]).id != (
                #[trigger] db.communities@[j]).id
            &&& forall|i: int, j: int|
                0 <= i < j < db.image_details@.len() ==> (#[trigger] db.image_details@[i]).link@
                    != (#[trigger] db.image_details@[j]).link@
            &&& forall|i: int, j: int|
                0 <= i < j < db.post_likes@.len() ==> (#[trigger] db.post_likes@[i]).post_id != (
                #[trigger] db.post_likes@[j]).post_id || db.post_likes@[i].person_id
                    != db.post_likes@[j].person_id
            &&& forall|i: int, j: int|
                0 <= i < j < db.post_saveds@.len() ==> (#[trigger] db.post_saveds@[i]).post_id != (
                #[trigger] db.post_saveds@[j]).post_id || db.post_saveds@[i].person_id
                    != db.post_saveds@[j].person_id
            &&& forall|i: int, j: int|
                0 <= i < j < db.community_followers@.len() ==> (
                #[trigger] db.community_followers@[i]).community_id != (
                #[trigger] db.community_followers@[j]).community_id
                    || db.community_followers@[i].person_id != db.community_followers@[j].person_id
            &&& forall|i: int, j: int|
                0 <= i < j < db.person_post_aggregates@.len() ==> (
                #[trigger] db.person_post_aggregates@[i]).post_id != (
                #[trigger] db.person_post_aggregates@[j]).post_id
                    || db.person_post_aggregates@[i].person_id
                    != db.person_post_aggregates@[j].person_id
            &&& forall|i: int, j: int|
                0 <= i < j < db.cutoffs@.len() ==> (#[trigger] db.cutoffs@[i]).interval != (
                #[trigger] db.cutoffs@[j]).interval
            &&& forall|i: int, j: int|
                0 <= i < db.post_aggregates@.len() && 0 <= j < db.person_post_aggregates@.len() && (
                #[trigger] db.post_aggregates@[i]).post_id == (
                #[trigger] db.person_post_aggregates@[j]).post_id ==> i64::MIN
                    <= db.post_aggregates@[i].comments - db.person_post_aggregates@[j].read_comments
                    <= i64::MAX
        },
{
}

/// Following, moderating, being banned from and blocking a community each mean a row for the
/// person and the community.
pub proof fn law_persons_and_communities(db: &Database, person: PersonId, community: CommunityId)
    ensures
        db.follows(person, community) <==> exists|i: int|
            0 <= i < db.community_followers@.len() && (
            #[trigger] db.community_followers@[i]).community_id == community
                && db.community_followers@[i].person_id == person,
        db.follows_accepted(person, community) <==> exists|i: int|
            0 <= i < db.community_followers@.len() && (
            #[trigger] db.community_followers@[i]).community_id == community
                && db.community_followers@[i].person_id == person
                && db.community_followers@[i].state == CommunityFollowerState::Accepted,
        db.moderates(person, community) <==> exists|i: int|
            0 <= i < db.community_moderators@.len() && (
            #[trigger] db.community_moderators@[i]).community_id == community
                && db.community_moderators@[i].person_id == person,
        db.banned(person, community) <==> exists|i: int|
            0 <= i < db.community_person_bans@.len() && (
            #[trigger] db.community_person_bans@[i]).community_id == community
                && db.community_person_bans@[i].person_id == person,
        db.blocks_community(person, community) <==> exists|i: int|
            0 <= i < db.community_blocks@.len() && (
            #[trigger] db.community_blocks@[i]).community_id == community
                && db.community_blocks@[i].person_id == person,
{
    let follower = CommunityFollower::pair(community, person);
    let accepted = CommunityFollower::accepted(community, person);
    let pair = CommunityPerson::pair(community, person);
    assert(forall|r: CommunityFollower| #[trigger]
        follower(r) == (r.community_id == community && r.person_id == person));
    assert(forall|r: CommunityFollower| #[trigger]
        accepted(r) == (r.community_id == community && r.person_id == person && r.state
            == CommunityFollowerState::Accepted));
    assert(forall|r: CommunityPerson| #[trigger]
        pair(r) == (r.community_id == community && r.person_id == person));
}

/// Having read and having hidden a post each mean a row for the person and the post, and a vote is
/// the score of such a row.
pub proof fn law_persons_and_posts(db: &Database, person: PersonId, post: PostId)
    requires
        db.wf(),
    ensures
        db.has_read(person, post) <==> exists|i: int|
            0 <= i < db.post_reads@.len() && (#[trigger] db.post_reads@[i]).post_id == post
                && db.post_reads@[i].person_id == person,
        db.has_hidden(person, post) <==> exists|i: int|
            0 <= i < db.post_hides@.len() && (#[trigger] db.post_hides@[i]).post_id == post
                && db.post_hides@[i].person_id == person,
        forall|score: i16|
            db.vote(person, post) == Some(score) <==> exists|i: int|
                0 <= i < db.post_likes@.len() && (#[trigger] db.post_likes@[i]).post_id == post
                    && db.post_likes@[i].person_id == person && db.post_likes@[i].score == score,
{
    let pair = PostPerson::pair(post, person);
    assert(forall|r: PostPerson| #[trigger]
        pair(r) == (r.post_id == post && r.person_id == person));
    let like = PostLike::pair(post, person);
    assert forall|score: i16|
        db.vote(person, post) == Some(score) <==> exists|i: int|
            0 <= i < db.post_likes@.len() && (#[trigger] db.post_likes@[i]).post_id == post
                && db.post_likes@[i].person_id == person && db.post_likes@[i].score == score by {
        if exists|i: int|
            0 <= i < db.post_likes@.len() && (#[trigger] db.post_likes@[i]).post_id == post
                && db.post_likes@[i].person_id == person && db.post_likes@[i].score == score {
            let i = choose|i: int|
                0 <= i < db.post_likes@.len() && (#[trigger] db.post_likes@[i]).post_id == post
                    && db.post_likes@[i].person_id == person && db.post_likes@[i].score == score;
            lemma_lookup(db.post_likes@, like, i);
        }
    }
}

/// Blocking a person or an instance, and reading a language, each mean a row.
pub proof fn law_blocks_and_languages(
    db: &Database,
    person: PersonId,
    target: PersonId,
    instance: InstanceId,
    user: LocalUserId,
    language: LanguageId,
)
    ensures
        db.blocks_person(person, target) <==> exists|i: int|
            0 <= i < db.person_blocks@.len() && (#[trigger] db.person_blocks@[i]).person_id
                == person && db.person_blocks@[i].target_id == target,
        db.blocks_instance(person, instance) <==> exists|i: int|
            0 <= i < db.instance_blocks@.len() && (#[trigger] db.instance_blocks@[i]).person_id
                == person && db.instance_blocks@[i].instance_id == instance,
        db.reads_language(user, language) <==> exists|i: int|
            0 <= i < db.local_user_languages@.len() && (
            #[trigger] db.local_user_languages@[i]).local_user_id == user
                && db.local_user_languages@[i].language_id == language,
{
    let person_block = PersonBlock::pair(person, target);
    assert(forall|r: PersonBlock| #[trigger]
        person_block(r) == (r.person_id == person && r.target_id == target));
    let instance_block = InstanceBlock::pair(person, instance);
    assert(forall|r: InstanceBlock| #[trigger]
        instance_block(r) == (r.person_id == person && r.instance_id == instance));
    let reads = LocalUserLanguage::pair(user, language);
    assert(forall|r: LocalUserLanguage| #[trigger]
        reads(r) == (r.local_user_id == user && r.language_id == language));
}

/// A text matches a search term, and an instant lies within an interval of the server's present,
/// just where the snapshot holds a row that says so.
pub proof fn law_matches_and_instants(
    db: &Database,
    text: Seq<char>,
    term: Seq<char>,
    interval: Interval,
    published: Timestamp,
)
    requires
        db.wf(),
    ensures
        db.fuzzy(text, term) <==> exists|i: int|
            0 <= i < db.fuzzy_matches@.len() && (#[trigger] db.fuzzy_matches@[i]).text@ == text
                && db.fuzzy_matches@[i].term@ == term,
        db.since(interval, published) <==> exists|i: int|
            0 <= i < db.cutoffs@.len() && (#[trigger] db.cutoffs@[i]).interval == interval
                && published > db.cutoffs@[i].at,
{
    let pair = FuzzyMatch::pair(text, term);
    assert(forall|r: FuzzyMatch| #[trigger] pair(r) == (r.text@ == text && r.term@ == term));
    let of = Cutoff::of(interval);
    if exists|i: int|
        0 <= i < db.cutoffs@.len() && (#[trigger] db.cutoffs@[i]).interval == interval && published
            > db.cutoffs@[i].at {
        let i = choose|i: int|
            0 <= i < db.cutoffs@.len() && (#[trigger] db.cutoffs@[i]).interval == interval
                && published > db.cutoffs@[i].at;
        lemma_lookup(db.cutoffs@, of, i);
    }
}

/// The counts of a post are the row of that post.
pub proof fn law_counts_of_a_post(db: &Database, id: PostId, counts: PostAggregates)
    requires
        db.wf(),
    ensures
        db.counts_of(id) == Some(counts) <==> db.post_aggregates@.contains(counts)
            && counts.post_id == id,
{
    let of = PostAggregates::of(id);
    if db.post_aggregates@.contains(counts) && counts.post_id == id {
        let i = choose|i: int|
            0 <= i < db.post_aggregates@.len() && db.post_aggregates@[i] == counts;
        lemma_lookup(db.post_aggregates@, of, i);
    }
    if db.counts_of(id) == Some(counts) {
        let i = choose|i: int|
            0 <= i < db.post_aggregates@.len() && of(#[trigger] db.post_aggregates@[i]);
        assert(db.post_aggregates@[i] == counts);
    }
}

/// A row of the join puts together the counts of a post, the post, its creator and its community,
/// each from its table, and the bookmark of the person on the post where there is one.
pub proof fn law_join(db: &Database, who: PersonId, c: Candidate<'_>)
    requires
        db.wf(),
    ensures
        db.has_candidate(who, c) <==> {
            &&& db.post_aggregates@.contains(*c.counts)
            &&& db.posts@.contains(*c.post)
            &&& db.persons@.contains(*c.creator)
            &&& db.communities@.contains(*c.community)
            &&& c.post.id == c.counts.post_id
            &&& c.creator.id == c.counts.creator_id
            &&& c.community.id == c.counts.community_id
            &&& match c.saved {
                Some(saved) => db.post_saveds@.contains(*saved) && saved.post_id
                    == c.counts.post_id && saved.person_id == who,
                None => forall|i: int|
                    0 <= i < db.post_saveds@.len() ==> (#[trigger] db.post_saveds@[i]).post_id
                        != c.counts.post_id || db.post_saveds@[i].person_id != who,
            }
        },
{
    let has_post = Post::has_id(c.counts.post_id);
    let has_creator = Person::has_id(c.counts.creator_id);
    let has_community = Community::has_id(c.counts.community_id);
    let has_saved = PostSaved::pair(c.counts.post_id, who);
    if db.has_candidate(who, c) {
        let k = choose|k: int|
            0 <= k < db.post_aggregates@.len() && db.joined(who, #[trigger] db.post_aggregates@[k])
                == Some(c);
        assert(db.post_aggregates@[k] == *c.counts);
        let i = choose|i: int| 0 <= i < db.posts@.len() && has_post(#[trigger] db.posts@[i]);
        assert(db.posts@[i] == *c.post);
        let i = choose|i: int| 0 <= i < db.persons@.len() && has_creator(#[trigger] db.persons@[i]);
        assert(db.persons@[i] == *c.creator);
        let i = choose|i: int|
            0 <= i < db.communities@.len() && has_community(#[trigger] db.communities@[i]);
        assert(db.communities@[i] == *c.community);
        if scan::any(db.post_saveds@, has_saved) {
            let i = choose|i: int|
                0 <= i < db.post_saveds@.len() && has_saved(#[trigger] db.post_saveds@[i]);
            assert(c.saved == Some(&db.post_saveds@[i]));
        } else {
            assert forall|i: int| 0 <= i < db.post_saveds@.len() implies (
            #[trigger] db.post_saveds@[i]).post_id != c.counts.post_id
                || db.post_saveds@[i].person_id != who by {
                assert(!has_saved(db.post_saveds@[i]));
            }
        }
    }
    if {
        &&& db.post_aggregates@.contains(*c.counts)
        &&& db.posts@.contains(*c.post)
        &&& db.persons@.contains(*c.creator)
        &&& db.communities@.contains(*c.community)
        &&& c.post.id == c.counts.post_id
        &&& c.creator.id == c.counts.creator_id
        &&& c.community.id == c.counts.community_id
        &&& match c.saved {
            Some(saved) => db.post_saveds@.contains(*saved) && saved.post_id == c.counts.post_id
                && saved.person_id == who,
            None => forall|i: int|
                0 <= i < db.post_saveds@.len() ==> (#[trigger] db.post_saveds@[i]).post_id
                    != c.counts.post_id || db.post_saveds@[i].person_id != who,
        }
    } {
        let k = choose|k: int|
            0 <= k < db.post_aggregates@.len() && db.post_aggregates@[k] == *c.counts;
        let i = choose|i: int| 0 <= i < db.posts@.len() && db.posts@[i] == *c.post;
        lemma_lookup(db.posts@, has_post, i);
        let i = choose|i: int| 0 <= i < db.persons@.len() && db.persons@[i] == *c.creator;
        lemma_lookup(db.persons@, has_creator, i);
        let i = choose|i: int| 0 <= i < db.communities@.len() && db.communities@[i] == *c.community;
        lemma_lookup(db.communities@, has_community, i);
        match c.saved {
            Some(saved) => {
                let i = choose|i: int| 0 <= i < db.post_saveds@.len()
                    && db.post_saveds@[i] == *saved;
                lemma_lookup(db.post_saveds@, has_saved, i);
            },
            None => {
                assert(!scan::any(db.post_saveds@, has_saved));
            },
        }
        assert(db.joined(who, db.post_aggregates@[k]) == Some(c));
    }
}

} // verus!
