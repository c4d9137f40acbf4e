//! Making snapshots, and checking that they are in order.

use vstd::prelude::*;

use crate::scan::all_distinct;
use crate::tables::{
    Community, CommunityFollower, Cutoff, Database, ImageDetails, Person,
    PersonPostAggregates, Post, PostAggregates, PostLike, PostSaved,
};

verus! {

impl Database {
    /// A snapshot of empty tables.
    pub fn empty() -> (db: Database)
        ensures
            db.wf(),
            db.post_aggregates@.len() == 0,
            db.posts@.len() == 0,
            db.persons@.len() == 0,
            db.communities@.len() == 0,
            db.image_details@.len() == 0,
            db.local_users@.len() == 0,
            db.community_person_bans@.len() == 0,
            db.community_moderators@.len() == 0,
            db.community_blocks@.len() == 0,
            db.community_followers@.len() == 0,
            db.community_aggregates@.len() == 0,
            db.instance_blocks@.len() == 0,
            db.person_blocks@.len() == 0,
            db.post_reads@.len() == 0,
            db.post_hides@.len() == 0,
            db.post_likes@.len() == 0,
            db.post_saveds@.len() == 0,
            db.person_post_aggregates@.len() == 0,
            db.local_user_languages@.len() == 0,
            db.fuzzy_matches@.len() == 0,
            db.cutoffs@.len() == 0,
    {
        Database {
            post_aggregates: Vec::new(),
            posts: Vec::new(),
            persons: Vec::new(),
            communities: Vec::new(),
            image_details: Vec::new(),
            local_users: Vec::new(),
            community_person_bans: Vec::new(),
            community_moderators: Vec::new(),
            community_blocks: Vec::new(),
            community_followers: Vec::new(),
            community_aggregates: Vec::new(),
            instance_blocks: Vec::new(),
            person_blocks: Vec::new(),
            post_reads: Vec::new(),
            post_hides: Vec::new(),
            post_likes: Vec::new(),
            post_saveds: Vec::new(),
            person_post_aggregates: Vec::new(),
            local_user_languages: Vec::new(),
            fuzzy_matches: Vec::new(),
            cutoffs: Vec::new(),
        }
    }

    /// Tells whether the snapshot is in order.
    pub fn is_wf(&self) -> (ok: bool)
        ensures
            ok == self.wf(),
    {
        let same = |a: &PostAggregates, b: &PostAggregates| -> (r: bool)
            ensures
                r == (a.post_id == b.post_id),
        { a.post_id == b.post_id };
        if !all_distinct(&self.post_aggregates, same, Ghost(PostAggregates::same_key())) {
            return false;
        }
        let same = |a: &Post, b: &Post| -> (r: bool)
            ensures
                r == (a.id == b.id),
        { a.id == b.id };
        if !all_distinct(&self.posts, same, Ghost(Post::same_key())) {
            return false;
        }
        let same = |a: &Person, b: &Person| -> (r: bool)
            ensures
                r == (a.id == b.id),
        { a.id == b.id };
        if !all_distinct(&self.persons, same, Ghost(Person::same_key())) {
            return false;
        }
        let same = |a: &Community, b: &Community| -> (r: bool)
            ensures
                r == (a.id == b.id),
        { a.id == b.id };
        if !all_distinct(&self.communities, same, Ghost(Community::same_key())) {
            return false;
        }
        let same = |a: &ImageDetails, b: &ImageDetails| -> (r: bool)
            ensures
                r == (a.link@ == b.link@),
        { a.link == b.link };
        if !all_distinct(&self.image_details, same, Ghost(ImageDetails::same_key())) {
            return false;
        }
        let same = |a: &PostLike, b: &PostLike| -> (r: bool)
            ensures
                r == (a.post_id == b.post_id && a.person_id == b.person_id),
        { a.post_id == b.post_id && a.person_id == b.person_id };
        if !all_distinct(&self.post_likes, same, Ghost(PostLike::same_key())) {
            return false;
        }
        let same = |a: &PostSaved, b: &PostSaved| -> (r: bool)
            ensures
                r == (a.post_id == b.post_id && a.person_id == b.person_id),
        { a.post_id == b.post_id && a.person_id == b.person_id };
        if !all_distinct(&self.post_saveds, same, Ghost(PostSaved::same_key())) {
            return false;
        }
        let same = |a: &CommunityFollower, b: &CommunityFollower| -> (r: bool)
            ensures
                r == (a.community_id == b.community_id && a.person_id == b.person_id),
        { a.community_id == b.community_id && a.person_id == b.person_id };
        if !all_distinct(&self.community_followers, same, Ghost(CommunityFollower::same_key())) {
            return false;
        }
        let same = |a: &PersonPostAggregates, b: &PersonPostAggregates| -> (r: bool)
            ensures
                r == (a.post_id == b.post_id && a.person_id == b.person_id),
        { a.post_id == b.post_id && a.person_id == b.person_id };
        if !all_distinct(
            &self.person_post_aggregates,
            same,
            Ghost(PersonPostAggregates::same_key()),
        ) {
            return false;
        }
        let same = |a: &Cutoff, b: &Cutoff| -> (r: bool)
            ensures
                r == (a.interval == b.interval),
        { a.interval == b.interval };
        if !all_distinct(&self.cutoffs, same, Ghost(Cutoff::same_key())) {
            return false;
        }
        self.do_counts_fit()
    }

    /// Tells whether the number of unread comments is representable.
    fn do_counts_fit(&self) -> (ok: bool)
        ensures
            ok == self.counts_fit(),
    {
        let mut i: usize = 0;
        while i < self.post_aggregates.len()
            invariant
                i <= self.post_aggregates@.len(),
                forall|x: int, y: int|
                    0 <= x < i && 0 <= y < self.person_post_aggregates@.len() && (
                    #[trigger] self.post_aggregates@[x]).post_id == (
                    #[trigger] self.person_post_aggregates@[y]).post_id ==> i64::MIN
                        <= self.post_aggregates@[x].comments
                        - self.person_post_aggregates@[y].read_comments <= i64::MAX,
            decreases self.post_aggregates.len() - i,
        {
            let mut j: usize = 0;
            while j < self.person_post_aggregates.len()
                invariant
                    i < self.post_aggregates@.len(),
                    j <= self.person_post_aggregates@.len(),
                    forall|y: int|
                        0 <= y < j && self.post_aggregates@[i as int].post_id == (
                        #[trigger] self.person_post_aggregates@[y]).post_id ==> i64::MIN
                            <= self.post_aggregates@[i as int].comments
                            - self.person_post_aggregates@[y].read_comments <= i64::MAX,
                decreases self.person_post_aggregates.len() - j,
            {
                let counts = &self.post_aggregates[i];
                let seen = &self.person_post_aggregates[j];
                if counts.post_id == seen.post_id {
                    if counts.comments.checked_sub(seen.read_comments).is_none() {
                        return false;
                    }
                }
                j += 1;
            }
            i += 1;
        }
        true
    }
}

} // verus!
