//! Reading a single post.

use vstd::prelude::*;

use crate::policy;
use crate::query::read_selection;
use crate::tables::{Candidate, Database, LocalUser};
use crate::types::{CommunityVisibility, PersonId, PostId, QueryError};
use crate::view::PostView;

verus! {

/// `c` is the row of the post, and the viewer may read it.
pub open spec fn reads(
    db: &Database,
    id: PostId,
    user: Option<&LocalUser>,
    is_mod_or_admin: bool,
    c: Candidate<'_>,
) -> bool {
    &&& db.has_candidate(policy::person_or_nobody(user), c)
    &&& c.counts.post_id == id
    &&& policy::readable(db, c, user, is_mod_or_admin)
}

impl<'a> PostView<'a> {
    /// Shows the post to the viewer, if the viewer may read it.
    pub fn read(
        db: &'a Database,
        post_id: PostId,
        my_local_user: Option<&LocalUser>,
        is_mod_or_admin: bool,
    ) -> (view: Result<PostView<'a>, QueryError>)
        requires
            db.wf(),
        ensures
            view matches Ok(v) ==> {
                let gone = v.post.removed || v.post.deleted || v.community.removed
                    || v.community.deleted;
                &&& v.counts.post_id == post_id
                &&& gone && !is_mod_or_admin ==> v.post.creator_id == (match my_local_user {
                    Some(u) => u.person_id,
                    None => PersonId((-1) as i32),
                })
                &&& v.community.visibility == CommunityVisibility::Private && !is_mod_or_admin ==> (
                my_local_user matches Some(u) && db.follows_accepted(
                    u.person_id,
                    v.counts.community_id,
                ))
                &&& my_local_user is None ==> v.community.visibility == CommunityVisibility::Public
            },
            match view {
                Ok(v) => exists|c: Candidate<'_>|
                    {
                        &&& #[trigger] reads(db, post_id, my_local_user, is_mod_or_admin, c)
                        &&& db.shows(policy::person_of(my_local_user), c, v)
                    },
                Err(e) => {
                    &&& e == QueryError::NotFound
                    &&& forall|c: Candidate<'_>|
                        !(#[trigger] reads(db, post_id, my_local_user, is_mod_or_admin, c))
                },
            },
    {
        let selection = read_selection(post_id, my_local_user, is_mod_or_admin);
        assert(selection.bookmarks() == policy::person_or_nobody(my_local_user));
        match selection.first(db) {
            Some(c) => {
                proof {
                    let k = choose|k: int|
                        0 <= k < db.post_aggregates@.len() && db.joined(
                            selection.bookmarks(),
                            #[trigger] db.post_aggregates@[k],
                        ) == Some(c);
                    assert(db.post_aggregates@[k] == *c.counts);
                    assert(reads(db, post_id, my_local_user, is_mod_or_admin, c));
                }
                Ok(db.view(selection.viewer, &c))
            },
            None => {
                assert forall|c: Candidate<'_>|
                    !(#[trigger] reads(db, post_id, my_local_user, is_mod_or_admin, c)) by {
                    assert(!selection.selects(db, c));
                }
                Err(QueryError::NotFound)
            },
        }
    }
}

} // verus!
