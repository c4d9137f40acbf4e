//! Pagination cursors.

use vstd::prelude::*;

use crate::hex;
use crate::scan;
use crate::scan::find_row;
use crate::tables::{Database, PostAggregates};
use crate::types::{PostId, QueryError};
use crate::view::PostView;

verus! {

/// A place in a listing: the counts and ranks of the post that stands there. Which of them matter
/// depends on the sort.
#[derive(Clone, Copy, PartialEq, Eq, Structural, Debug)]
pub struct PaginationCursorData(pub PostAggregates);

/// The token by which a client refers to a place in a listing. Its form is no concern of the
/// client.
#[derive(PartialEq, Eq, Debug)]
pub struct PaginationCursor(pub String);

/// The token for the page after a post: a letter, and the id of the post in base sixteen.
pub open spec fn token(id: PostId) -> Seq<char> {
    seq!['P'] + hex::digits(hex::bits(id.0))
}

/// The post that a token names. The first character is passed over, whatever it is, as long as it
/// is a single byte; the rest is the id.
pub open spec fn token_post(text: Seq<char>) -> Option<PostId> {
    if text.len() > 0 && text[0] <= '\x7f' {
        match hex::parsed(text.skip(1)) {
            Some(id) => Some(PostId(id)),
            None => None,
        }
    } else {
        None
    }
}

impl Database {
    /// The counts of a post.
    pub open spec fn counts_of(&self, id: PostId) -> Option<PostAggregates> {
        scan::lookup(self.post_aggregates@, PostAggregates::of(id))
    }
}

impl PostAggregates {
    /// Looks up the counts of a post.
    pub fn read(db: &Database, id: PostId) -> (counts: Result<PostAggregates, QueryError>)
        requires
            db.wf(),
        ensures
            counts == (match db.counts_of(id) {
                Some(a) => Ok(a),
                None => Err(QueryError::NotFound),
            }),
    {
        let test = |r: &PostAggregates| -> (b: bool)
            ensures
                b == (r.post_id == id),
        { r.post_id == id };
        match find_row(&db.post_aggregates, test, Ghost(PostAggregates::of(id))) {
            Some(a) => Ok(*a),
            None => Err(QueryError::NotFound),
        }
    }
}

impl PaginationCursor {
    /// The cursor for the page that starts immediately after the given post.
    pub fn after_post(view: &PostView<'_>) -> (cursor: PaginationCursor)
        ensures
            cursor.0@ == token(view.counts.post_id),
    {
        let mut text: String = "P".to_owned();
        proof {
            reveal_strlit("P");
            assert(text@ =~= seq!['P']);
        }
        hex::push_bits(view.counts.post_id.0, &mut text);
        PaginationCursor(text)
    }

    /// The post that the cursor names.
    pub fn post_id(&self) -> (id: Result<PostId, QueryError>)
        ensures
            id == (match token_post(self.0@) {
                Some(p) => Ok(p),
                None => Err(QueryError::BadPaginationToken),
            }),
    {
        let chars = hex::chars_of(self.0.as_str());
        if chars.len() > 0 && chars[0] <= '\x7f' {
            match hex::parse(&chars, 1) {
                Some(id) => Ok(PostId(id)),
                None => Err(QueryError::BadPaginationToken),
            }
        } else {
            Err(QueryError::BadPaginationToken)
        }
    }

    /// Looks up the place that the cursor names.
    pub fn read(&self, db: &Database) -> (data: Result<PaginationCursorData, QueryError>)
        requires
            db.wf(),
        ensures
            data == (match token_post(self.0@) {
                Some(id) => match db.counts_of(id) {
                    Some(a) => Ok(PaginationCursorData(a)),
                    None => Err(QueryError::NotFound),
                },
                None => Err(QueryError::BadPaginationToken),
            }),
    {
        match self.post_id() {
            Ok(id) => match PostAggregates::read(db, id) {
                Ok(a) => Ok(PaginationCursorData(a)),
                Err(e) => Err(e),
            },
            Err(e) => Err(e),
        }
    }
}

} // verus!
