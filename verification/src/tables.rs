//! The rows that a query reads, and a snapshot of the tables that hold them.

use vstd::prelude::*;

use crate::plan;
use crate::scan;
use crate::types::{
    CommunityFollowerState, CommunityId, CommunityVisibility, InstanceId, LanguageId, LocalUserId,
    PersonId, PostId, Rank, Timestamp,
};

verus! {

#[derive(PartialEq, Eq, Debug)]
pub struct Post {
    pub id: PostId,
    pub name: String,
    pub url: Option<String>,
    pub body: Option<String>,
    pub creator_id: PersonId,
    pub community_id: CommunityId,
    pub removed: bool,
    pub locked: bool,
    pub published: Timestamp,
    pub updated: Option<Timestamp>,
    pub deleted: bool,
    pub nsfw: bool,
    pub embed_title: Option<String>,
    pub embed_description: Option<String>,
    pub thumbnail_url: Option<String>,
    pub ap_id: String,
    pub local: bool,
    pub embed_video_url: Option<String>,
    pub language_id: LanguageId,
    pub featured_community: bool,
    pub featured_local: bool,
    pub url_content_type: Option<String>,
    pub alt_text: Option<String>,
    pub scheduled_publish_time: Option<Timestamp>,
}

#[derive(PartialEq, Eq, Debug)]
pub struct Person {
    pub id: PersonId,
    pub name: String,
    pub display_name: Option<String>,
    pub avatar: Option<String>,
    pub banned: bool,
    pub published: Timestamp,
    pub updated: Option<Timestamp>,
    pub actor_id: String,
    pub bio: Option<String>,
    pub local: bool,
    pub private_key: Option<String>,
    pub public_key: String,
    pub last_refreshed_at: Timestamp,
    pub banner: Option<String>,
    pub deleted: bool,
    pub inbox_url: String,
    pub matrix_user_id: Option<String>,
    pub bot_account: bool,
    pub ban_expires: Option<Timestamp>,
    pub instance_id: InstanceId,
}

#[derive(PartialEq, Eq, Debug)]
pub struct Community {
    pub id: CommunityId,
    pub name: String,
    pub title: String,
    pub sidebar: Option<String>,
    pub removed: bool,
    pub published: Timestamp,
    pub updated: Option<Timestamp>,
    pub deleted: bool,
    pub nsfw: bool,
    pub actor_id: String,
    pub local: bool,
    pub private_key: Option<String>,
    pub public_key: String,
    pub last_refreshed_at: Timestamp,
    pub icon: Option<String>,
    pub banner: Option<String>,
    pub followers_url: Option<String>,
    pub inbox_url: String,
    pub hidden: bool,
    pub posting_restricted_to_mods: bool,
    pub instance_id: InstanceId,
    pub moderators_url: Option<String>,
    pub featured_url: Option<String>,
    pub visibility: CommunityVisibility,
    pub description: Option<String>,
}

/// The counts and ranks of a post. A listing is ordered by them, and a pagination cursor holds
/// those of the post it stands at.
#[derive(Clone, Copy, PartialEq, Eq, Structural, Debug)]
pub struct PostAggregates {
    pub post_id: PostId,
    pub comments: i64,
    pub score: i64,
    pub upvotes: i64,
    pub downvotes: i64,
    pub published: Timestamp,
    pub newest_comment_time_necro: Timestamp,
    pub newest_comment_time: Timestamp,
    pub featured_community: bool,
    pub featured_local: bool,
    pub hot_rank: Rank,
    pub hot_rank_active: Rank,
    pub community_id: CommunityId,
    pub creator_id: PersonId,
    pub controversy_rank: Rank,
    pub instance_id: InstanceId,
    pub scaled_rank: Rank,
}

/// What is known of the image at a link.
#[derive(PartialEq, Eq, Debug)]
pub struct ImageDetails {
    pub link: String,
}

/// A user of this site.
#[derive(Clone, Copy, PartialEq, Eq, Structural, Debug)]
pub struct LocalUser {
    pub id: LocalUserId,
    pub person_id: PersonId,
    pub admin: bool,
    pub show_nsfw: bool,
    pub show_bot_accounts: bool,
    pub show_read_posts: bool,
}

/// A person and a community: a ban, a moderator or a block.
#[derive(Clone, Copy, PartialEq, Eq, Structural, Debug)]
pub struct CommunityPerson {
    pub community_id: CommunityId,
    pub person_id: PersonId,
}

/// A person and a post: the post was read, or hidden.
#[derive(Clone, Copy, PartialEq, Eq, Structural, Debug)]
pub struct PostPerson {
    pub post_id: PostId,
    pub person_id: PersonId,
}

/// `person_id` blocks `target_id`.
#[derive(Clone, Copy, PartialEq, Eq, Structural, Debug)]
pub struct PersonBlock {
    pub person_id: PersonId,
    pub target_id: PersonId,
}

/// `person_id` blocks the communities of an instance.
#[derive(Clone, Copy, PartialEq, Eq, Structural, Debug)]
pub struct InstanceBlock {
    pub person_id: PersonId,
    pub instance_id: InstanceId,
}

#[derive(Clone, Copy, PartialEq, Eq, Structural, Debug)]
pub struct PostLike {
    pub post_id: PostId,
    pub person_id: PersonId,
    pub score: i16,
}

#[derive(Clone, Copy, PartialEq, Eq, Structural, Debug)]
pub struct PostSaved {
    pub post_id: PostId,
    pub person_id: PersonId,
    pub published: Timestamp,
}

#[derive(Clone, Copy, PartialEq, Eq, Structural, Debug)]
pub struct CommunityFollower {
    pub community_id: CommunityId,
    pub person_id: PersonId,
    pub state: CommunityFollowerState,
}

/// How many comments of a post a person has seen.
#[derive(Clone, Copy, PartialEq, Eq, Structural, Debug)]
pub struct PersonPostAggregates {
    pub person_id: PersonId,
    pub post_id: PostId,
    pub read_comments: i64,
}

#[derive(Clone, Copy, PartialEq, Eq, Structural, Debug)]
pub struct LocalUserLanguage {
    pub local_user_id: LocalUserId,
    pub language_id: LanguageId,
}

#[derive(Clone, Copy, PartialEq, Eq, Structural, Debug)]
pub struct CommunityAggregates {
    pub community_id: CommunityId,
    pub users_active_month: i64,
}

/// A span of time as the database server counts it.
#[derive(Clone, Copy, PartialEq, Eq, Structural, Debug)]
pub struct Interval {
    pub microseconds: i64,
    pub days: i32,
    pub months: i32,
}

/// The instant that lies `interval` before the server's present.
#[derive(Clone, Copy, PartialEq, Eq, Structural, Debug)]
pub struct Cutoff {
    pub interval: Interval,
    pub at: Timestamp,
}

/// By the server's collation, `text` is a fuzzy match for the search term `term`.
#[derive(PartialEq, Eq, Debug)]
pub struct FuzzyMatch {
    pub text: String,
    pub term: String,
}

/// A snapshot of the tables. The last two members hold what only the server can tell: which
/// texts match which search terms, and where its clock stands.
pub struct Database {
    pub post_aggregates: Vec<PostAggregates>,
    pub posts: Vec<Post>,
    pub persons: Vec<Person>,
    pub communities: Vec<Community>,
    pub image_details: Vec<ImageDetails>,
    pub local_users: Vec<LocalUser>,
    pub community_person_bans: Vec<CommunityPerson>,
    pub community_moderators: Vec<CommunityPerson>,
    pub community_blocks: Vec<CommunityPerson>,
    pub community_followers: Vec<CommunityFollower>,
    pub community_aggregates: Vec<CommunityAggregates>,
    pub instance_blocks: Vec<InstanceBlock>,
    pub person_blocks: Vec<PersonBlock>,
    pub post_reads: Vec<PostPerson>,
    pub post_hides: Vec<PostPerson>,
    pub post_likes: Vec<PostLike>,
    pub post_saveds: Vec<PostSaved>,
    pub person_post_aggregates: Vec<PersonPostAggregates>,
    pub local_user_languages: Vec<LocalUserLanguage>,
    pub fuzzy_matches: Vec<FuzzyMatch>,
    pub cutoffs: Vec<Cutoff>,
}

/// One row of the join that every query starts from: a post with its counts, its creator and its
/// community, and the viewer's bookmark on it.
#[derive(Clone, Copy)]
pub struct Candidate<'a> {
    pub counts: &'a PostAggregates,
    pub post: &'a Post,
    pub creator: &'a Person,
    pub community: &'a Community,
    pub saved: Option<&'a PostSaved>,
}

// Row predicates, one for each way in which a table is searched.

impl Post {
    pub open spec fn same_key() -> spec_fn(Self, Self) -> bool {
        |a: Self, b: Self| a.id == b.id
    }

    pub open spec fn has_id(id: PostId) -> spec_fn(Self) -> bool {
        |r: Self| r.id == id
    }
}

impl Person {
    pub open spec fn same_key() -> spec_fn(Self, Self) -> bool {
        |a: Self, b: Self| a.id == b.id
    }

    pub open spec fn has_id(id: PersonId) -> spec_fn(Self) -> bool {
        |r: Self| r.id == id
    }
}

impl Community {
    pub open spec fn same_key() -> spec_fn(Self, Self) -> bool {
        |a: Self, b: Self| a.id == b.id
    }

    pub open spec fn has_id(id: CommunityId) -> spec_fn(Self) -> bool {
        |r: Self| r.id == id
    }
}

impl PostAggregates {
    pub open spec fn same_key() -> spec_fn(Self, Self) -> bool {
        |a: Self, b: Self| a.post_id == b.post_id
    }

    pub open spec fn of(post_id: PostId) -> spec_fn(Self) -> bool {
        |r: Self| r.post_id == post_id
    }
}

impl ImageDetails {
    pub open spec fn same_key() -> spec_fn(Self, Self) -> bool {
        |a: Self, b: Self| a.link@ == b.link@
    }

    pub open spec fn at(link: Option<String>) -> spec_fn(Self) -> bool {
        |r: Self| link is Some && r.link@ == link->0@
    }
}

impl LocalUser {
    pub open spec fn is_admin_person(person_id: PersonId) -> spec_fn(Self) -> bool {
        |r: Self| r.person_id == person_id && r.admin
    }
}

impl CommunityPerson {
    pub open spec fn pair(community_id: CommunityId, person_id: PersonId) -> spec_fn(Self) -> bool {
        |r: Self| r.community_id == community_id && r.person_id == person_id
    }
}

impl PostPerson {
    pub open spec fn pair(post_id: PostId, person_id: PersonId) -> spec_fn(Self) -> bool {
        |r: Self| r.post_id == post_id && r.person_id == person_id
    }
}

impl PersonBlock {
    pub open spec fn pair(person_id: PersonId, target_id: PersonId) -> spec_fn(Self) -> bool {
        |r: Self| r.person_id == person_id && r.target_id == target_id
    }
}

impl InstanceBlock {
    pub open spec fn pair(person_id: PersonId, instance_id: InstanceId) -> spec_fn(Self) -> bool {
        |r: Self| r.person_id == person_id && r.instance_id == instance_id
    }
}

impl PostLike {
    pub open spec fn same_key() -> spec_fn(Self, Self) -> bool {
        |a: Self, b: Self| a.post_id == b.post_id && a.person_id == b.person_id
    }

    pub open spec fn pair(post_id: PostId, person_id: PersonId) -> spec_fn(Self) -> bool {
        |r: Self| r.post_id == post_id && r.person_id == person_id
    }
}

impl PostSaved {
    pub open spec fn same_key() -> spec_fn(Self, Self) -> bool {
        |a: Self, b: Self| a.post_id == b.post_id && a.person_id == b.person_id
    }

    pub open spec fn pair(post_id: PostId, person_id: PersonId) -> spec_fn(Self) -> bool {
        |r: Self| r.post_id == post_id && r.person_id == person_id
    }
}

impl CommunityFollower {
    pub open spec fn same_key() -> spec_fn(Self, Self) -> bool {
        |a: Self, b: Self| a.community_id == b.community_id && a.person_id == b.person_id
    }

    pub open spec fn pair(community_id: CommunityId, person_id: PersonId) -> spec_fn(Self) -> bool {
        |r: Self| r.community_id == community_id && r.person_id == person_id
    }

    pub open spec fn accepted(community_id: CommunityId, person_id: PersonId) -> spec_fn(
        Self,
    ) -> bool {
        |r: Self|
            r.community_id == community_id && r.person_id == person_id
                && r.state == CommunityFollowerState::Accepted
    }
}

impl PersonPostAggregates {
    pub open spec fn same_key() -> spec_fn(Self, Self) -> bool {
        |a: Self, b: Self| a.post_id == b.post_id && a.person_id == b.person_id
    }

    pub open spec fn pair(post_id: PostId, person_id: PersonId) -> spec_fn(Self) -> bool {
        |r: Self| r.post_id == post_id && r.person_id == person_id
    }
}

impl LocalUserLanguage {
    pub open spec fn pair(local_user_id: LocalUserId, language_id: LanguageId) -> spec_fn(
        Self,
    ) -> bool {
        |r: Self| r.local_user_id == local_user_id && r.language_id == language_id
    }
}

impl Cutoff {
    pub open spec fn same_key() -> spec_fn(Self, Self) -> bool {
        |a: Self, b: Self| a.interval == b.interval
    }

    pub open spec fn of(interval: Interval) -> spec_fn(Self) -> bool {
        |r: Self| r.interval == interval
    }
}

impl FuzzyMatch {
    pub open spec fn pair(text: Seq<char>, term: Seq<char>) -> spec_fn(Self) -> bool {
        |r: Self| r.text@ == text && r.term@ == term
    }
}

impl Database {
    /// What the schema's keys and types guarantee: the primary keys are unique, an interval back
    /// from the server's present ends at one instant, and the number of unread comments is
    /// representable.
    pub open spec fn wf(&self) -> bool {
        &&& scan::distinct(self.post_aggregates@, PostAggregates::same_key())
        &&& scan::distinct(self.posts@, Post::same_key())
        &&& scan::distinct(self.persons@, Person::same_key())
        &&& scan::distinct(self.communities@, Community::same_key())
        &&& scan::distinct(self.image_details@, ImageDetails::same_key())
        &&& scan::distinct(self.post_likes@, PostLike::same_key())
        &&& scan::distinct(self.post_saveds@, PostSaved::same_key())
        &&& scan::distinct(self.community_followers@, CommunityFollower::same_key())
        &&& scan::distinct(self.person_post_aggregates@, PersonPostAggregates::same_key())
        &&& scan::distinct(self.cutoffs@, Cutoff::same_key())
        &&& self.counts_fit()
    }

    /// The number of unread comments is representable.
    pub open spec fn counts_fit(&self) -> bool {
        forall|i: int, j: int|
            0 <= i < self.post_aggregates@.len() && 0 <= j < self.person_post_aggregates@.len()
                && (#[trigger] self.post_aggregates@[i]).post_id == (
            #[trigger] self.person_post_aggregates@[j]).post_id ==> i64::MIN
                <= self.post_aggregates@[i].comments - self.person_post_aggregates@[j].read_comments
                <= i64::MAX
    }

    /// No row belongs to the person id that stands in for a visitor.
    pub open spec fn lacks_nobody(&self) -> bool {
        let nobody = plan::nobody();
        &&& !scan::any(self.persons@, |r: Person| r.id == nobody)
        &&& !scan::any(self.posts@, |r: Post| r.creator_id == nobody)
        &&& !scan::any(self.post_aggregates@, |r: PostAggregates| r.creator_id == nobody)
        &&& !scan::any(self.local_users@, |r: LocalUser| r.person_id == nobody)
        &&& !scan::any(self.community_person_bans@, |r: CommunityPerson| r.person_id == nobody)
        &&& !scan::any(self.community_moderators@, |r: CommunityPerson| r.person_id == nobody)
        &&& !scan::any(self.community_blocks@, |r: CommunityPerson| r.person_id == nobody)
        &&& !scan::any(self.community_followers@, |r: CommunityFollower| r.person_id == nobody)
        &&& !scan::any(self.instance_blocks@, |r: InstanceBlock| r.person_id == nobody)
        &&& !scan::any(
            self.person_blocks@,
            |r: PersonBlock| r.person_id == nobody || r.target_id == nobody,
        )
        &&& !scan::any(self.post_reads@, |r: PostPerson| r.person_id == nobody)
        &&& !scan::any(self.post_hides@, |r: PostPerson| r.person_id == nobody)
        &&& !scan::any(self.post_likes@, |r: PostLike| r.person_id == nobody)
        &&& !scan::any(self.post_saveds@, |r: PostSaved| r.person_id == nobody)
        &&& !scan::any(
            self.person_post_aggregates@,
            |r: PersonPostAggregates| r.person_id == nobody,
        )
    }

    /// `person_id` follows the community, whatever came of the request.
    pub open spec fn follows(&self, person_id: PersonId, community_id: CommunityId) -> bool {
        scan::any(self.community_followers@, CommunityFollower::pair(community_id, person_id))
    }

    /// `person_id` is an accepted follower of the community.
    pub open spec fn follows_accepted(
        &self,
        person_id: PersonId,
        community_id: CommunityId,
    ) -> bool {
        scan::any(self.community_followers@, CommunityFollower::accepted(community_id, person_id))
    }

    /// `person_id` moderates the community.
    pub open spec fn moderates(&self, person_id: PersonId, community_id: CommunityId) -> bool {
        scan::any(self.community_moderators@, CommunityPerson::pair(community_id, person_id))
    }

    /// `person_id` is banned from the community.
    pub open spec fn banned(&self, person_id: PersonId, community_id: CommunityId) -> bool {
        scan::any(self.community_person_bans@, CommunityPerson::pair(community_id, person_id))
    }

    /// `person_id` has read the post.
    pub open spec fn has_read(&self, person_id: PersonId, post_id: PostId) -> bool {
        scan::any(self.post_reads@, PostPerson::pair(post_id, person_id))
    }

    /// `person_id` has hidden the post.
    pub open spec fn has_hidden(&self, person_id: PersonId, post_id: PostId) -> bool {
        scan::any(self.post_hides@, PostPerson::pair(post_id, person_id))
    }

    /// `person_id` blocks `target_id`.
    pub open spec fn blocks_person(&self, person_id: PersonId, target_id: PersonId) -> bool {
        scan::any(self.person_blocks@, PersonBlock::pair(person_id, target_id))
    }

    /// `person_id` blocks the community.
    pub open spec fn blocks_community(
        &self,
        person_id: PersonId,
        community_id: CommunityId,
    ) -> bool {
        scan::any(self.community_blocks@, CommunityPerson::pair(community_id, person_id))
    }

    /// `person_id` blocks the instance.
    pub open spec fn blocks_instance(&self, person_id: PersonId, instance_id: InstanceId) -> bool {
        scan::any(self.instance_blocks@, InstanceBlock::pair(person_id, instance_id))
    }

    /// The user reads the language.
    pub open spec fn reads_language(
        &self,
        local_user_id: LocalUserId,
        language_id: LanguageId,
    ) -> bool {
        scan::any(
            self.local_user_languages@,
            LocalUserLanguage::pair(local_user_id, language_id),
        )
    }

    /// The vote of `person_id` on the post.
    pub open spec fn vote(&self, person_id: PersonId, post_id: PostId) -> Option<i16> {
        match scan::lookup(self.post_likes@, PostLike::pair(post_id, person_id)) {
            Some(like) => Some(like.score),
            None => None,
        }
    }

    /// `text` is a fuzzy match for `term`.
    pub open spec fn fuzzy(&self, text: Seq<char>, term: Seq<char>) -> bool {
        scan::any(self.fuzzy_matches@, FuzzyMatch::pair(text, term))
    }

    /// `published` is later than the instant that lies `interval` back. Nothing is where the
    /// snapshot does not hold that instant.
    pub open spec fn since(&self, interval: Interval, published: Timestamp) -> bool {
        match scan::lookup(self.cutoffs@, Cutoff::of(interval)) {
            Some(cutoff) => published > cutoff.at,
            None => false,
        }
    }

    /// The row that the join makes of the counts of a post for a viewer: there is one where the
    /// post, its creator and its community are all there. The bookmark is that of `bookmarks`.
    pub open spec fn joined(&self, bookmarks: PersonId, counts: PostAggregates) -> Option<
        Candidate<'_>,
    > {
        let post = scan::lookup(self.posts@, Post::has_id(counts.post_id));
        let creator = scan::lookup(self.persons@, Person::has_id(counts.creator_id));
        let community = scan::lookup(self.communities@, Community::has_id(counts.community_id));
        let saved = scan::lookup(self.post_saveds@, PostSaved::pair(counts.post_id, bookmarks));
        if post is Some && creator is Some && community is Some {
            Some(
                Candidate {
                    counts: &counts,
                    post: &post->0,
                    creator: &creator->0,
                    community: &community->0,
                    saved: match saved {
                        Some(s) => Some(&s),
                        None => None,
                    },
                },
            )
        } else {
            None
        }
    }

    /// `c` is a row of the join for a viewer.
    pub open spec fn has_candidate(&self, bookmarks: PersonId, c: Candidate<'_>) -> bool {
        exists|i: int|
            0 <= i < self.post_aggregates@.len() && self.joined(
                bookmarks,
                #[trigger] self.post_aggregates@[i],
            ) == Some(c)
    }
}

} // verus!
