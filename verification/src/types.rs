//! Identifiers and enumerations that the tables, the queries and the views share.

use vstd::prelude::*;

verus! {

/// An instant, in microseconds since the Unix epoch.
pub type Timestamp = i64;

/// A ranking score. Scores are only ever compared, so they are held as integers
/// that are ordered as the scores are.
pub type Rank = i64;

#[derive(Clone, Copy, PartialEq, Eq, Structural, Debug, Default)]
pub struct PostId(pub i32);

#[derive(Clone, Copy, PartialEq, Eq, Structural, Debug, Default)]
pub struct PersonId(pub i32);

#[derive(Clone, Copy, PartialEq, Eq, Structural, Debug, Default)]
pub struct CommunityId(pub i32);

#[derive(Clone, Copy, PartialEq, Eq, Structural, Debug, Default)]
pub struct InstanceId(pub i32);

#[derive(Clone, Copy, PartialEq, Eq, Structural, Debug, Default)]
pub struct LocalUserId(pub i32);

#[derive(Clone, Copy, PartialEq, Eq, Structural, Debug, Default)]
pub struct LanguageId(pub i32);

/// Which communities a listing draws from.
#[derive(Clone, Copy, PartialEq, Eq, Structural, Debug)]
pub enum ListingType {
    /// Every community.
    All,
    /// Communities that live on this site.
    Local,
    /// Communities that the viewer follows.
    Subscribed,
    /// Communities that the viewer moderates.
    ModeratorView,
}

/// Who may see a community.
#[derive(Clone, Copy, PartialEq, Eq, Structural, Debug)]
pub enum CommunityVisibility {
    /// Everybody.
    Public,
    /// Logged-in users.
    LocalOnly,
    /// Accepted followers.
    Private,
}

/// How far a request to follow a community has come.
#[derive(Clone, Copy, PartialEq, Eq, Structural, Debug)]
pub enum CommunityFollowerState {
    Accepted,
    Pending,
    ApprovalRequired,
}

/// The main sort of a listing.
#[derive(Clone, Copy, PartialEq, Eq, Structural, Debug)]
pub enum PostSortType {
    Active,
    Hot,
    Scaled,
    Controversial,
    New,
    Old,
    NewComments,
    MostComments,
    TopAll,
    TopYear,
    TopMonth,
    TopWeek,
    TopDay,
    TopHour,
    TopSixHour,
    TopTwelveHour,
    TopThreeMonths,
    TopSixMonths,
    TopNineMonths,
}

/// Why a query gave no answer.
#[derive(PartialEq, Eq, Debug)]
pub enum QueryError {
    /// No row matches.
    NotFound,
    /// A pagination token does not name a post.
    BadPaginationToken,
    /// A page offset was given together with a pagination cursor.
    LegacyPagination,
    /// The page number or the page size is out of range; the text says how.
    BadPage(String),
}

impl Clone for QueryError {
    fn clone(&self) -> (e: Self)
        ensures
            e == *self,
    {
        match self {
            QueryError::NotFound => QueryError::NotFound,
            QueryError::BadPaginationToken => QueryError::BadPaginationToken,
            QueryError::LegacyPagination => QueryError::LegacyPagination,
            QueryError::BadPage(reason) => QueryError::BadPage(reason.clone()),
        }
    }
}

impl QueryError {
    /// The message that goes with the error.
    pub fn message(&self) -> (text: String)
        ensures
            text@ == (match *self {
                QueryError::NotFound => "Record not found"@,
                QueryError::BadPaginationToken => "Could not parse pagination token"@,
                QueryError::LegacyPagination =>
                    "legacy pagination cannot be combined with v2 pagination"@,
                QueryError::BadPage(reason) => reason@,
            }),
    {
        match self {
            QueryError::NotFound => "Record not found".to_owned(),
            QueryError::BadPaginationToken => "Could not parse pagination token".to_owned(),
            QueryError::LegacyPagination =>
                "legacy pagination cannot be combined with v2 pagination".to_owned(),
            QueryError::BadPage(reason) => reason.clone(),
        }
    }
}

} // verus!
