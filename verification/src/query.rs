//! Queries for lists of posts, and the plans they turn into.

use vstd::prelude::*;

use crate::cursor::PaginationCursorData;
use crate::filter;
use crate::filter::{Filter, Flag};
use crate::interval;
use crate::order::SortKey;
use crate::plan::{Bound, ListPlan, Selection};
use crate::policy;
use crate::run::nobody;
use crate::tables::{Candidate, Database, Interval, LocalUser};
use crate::types::{CommunityId, ListingType, PersonId, PostId, PostSortType};

verus! {

/// The settings of this site that listings depend on.
#[derive(Clone, Copy, PartialEq, Eq, Structural, Debug)]
pub struct Site {
    /// The listing type of a query that does not name one.
    pub listing_type: ListingType,
    /// Whether visitors without a login are shown posts that are not safe for work.
    pub show_nsfw: bool,
}

/// How many posts of a listing are wanted, and how many are skipped before them.
#[derive(Clone, Copy, PartialEq, Eq, Structural, Debug)]
pub struct Window {
    pub limit: u64,
    pub offset: u64,
}

/// A query for a list of posts.
#[derive(PartialEq, Eq, Debug)]
pub struct PostQuery<'a> {
    pub listing_type: Option<ListingType>,
    pub sort: Option<PostSortType>,
    pub creator_id: Option<PersonId>,
    pub community_id: Option<CommunityId>,
    /// If set, the query is handled as if `community_id` was not given, except that only posts of
    /// that community are listed.
    pub community_id_just_for_prefetch: bool,
    pub local_user: Option<&'a LocalUser>,
    pub search_term: Option<String>,
    pub url_only: Option<bool>,
    pub saved_only: Option<bool>,
    pub liked_only: Option<bool>,
    pub disliked_only: Option<bool>,
    pub title_only: Option<bool>,
    pub page: Option<i64>,
    pub limit: Option<i64>,
    pub page_after: Option<PaginationCursorData>,
    pub page_before_or_equal: Option<PaginationCursorData>,
    pub page_back: Option<bool>,
    pub show_hidden: Option<bool>,
    pub show_read: Option<bool>,
    pub show_nsfw: Option<bool>,
    pub no_comments_only: Option<bool>,
}

impl<'a> Clone for PostQuery<'a> {
    fn clone(&self) -> (q: Self)
        ensures
            q == *self,
    {
        PostQuery {
            listing_type: self.listing_type,
            sort: self.sort,
            creator_id: self.creator_id,
            community_id: self.community_id,
            community_id_just_for_prefetch: self.community_id_just_for_prefetch,
            local_user: self.local_user,
            search_term: self.search_term.clone(),
            url_only: self.url_only,
            saved_only: self.saved_only,
            liked_only: self.liked_only,
            disliked_only: self.disliked_only,
            title_only: self.title_only,
            page: self.page,
            limit: self.limit,
            page_after: self.page_after,
            page_before_or_equal: self.page_before_or_equal,
            page_back: self.page_back,
            show_hidden: self.show_hidden,
            show_read: self.show_read,
            show_nsfw: self.show_nsfw,
            no_comments_only: self.no_comments_only,
        }
    }
}

impl<'a> PostQuery<'a> {
    /// A query that asks for nothing in particular.
    pub open spec fn blank() -> PostQuery<'a> {
        PostQuery {
            listing_type: None,
            sort: None,
            creator_id: None,
            community_id: None,
            community_id_just_for_prefetch: false,
            local_user: None,
            search_term: None,
            url_only: None,
            saved_only: None,
            liked_only: None,
            disliked_only: None,
            title_only: None,
            page: None,
            limit: None,
            page_after: None,
            page_before_or_equal: None,
            page_back: None,
            show_hidden: None,
            show_read: None,
            show_nsfw: None,
            no_comments_only: None,
        }
    }
}

impl<'a> Default for PostQuery<'a> {
    fn default() -> (q: Self)
        ensures
            q == PostQuery::<'a>::blank(),
    {
        PostQuery {
            listing_type: None,
            sort: None,
            creator_id: None,
            community_id: None,
            community_id_just_for_prefetch: false,
            local_user: None,
            search_term: None,
            url_only: None,
            saved_only: None,
            liked_only: None,
            disliked_only: None,
            title_only: None,
            page: None,
            limit: None,
            page_after: None,
            page_before_or_equal: None,
            page_back: None,
            show_hidden: None,
            show_read: None,
            show_nsfw: None,
            no_comments_only: None,
        }
    }
}

/// Tells whether an optional switch is on. It is off where it is not given.
pub(crate) fn is_on(switch: Option<bool>) -> (on: bool)
    ensures
        on == (switch == Some(true)),
{
    match switch {
        Some(b) => b,
        None => false,
    }
}

/// The person behind a user.
pub fn person_id(user: Option<&LocalUser>) -> (id: Option<PersonId>)
    ensures
        id == policy::person_of(user),
{
    match user {
        Some(u) => Some(u.person_id),
        None => None,
    }
}

/// The person behind a user, or the stand-in where there is no user.
pub fn person_id_join(user: Option<&LocalUser>) -> (id: PersonId)
    ensures
        id == policy::person_or_nobody(user),
{
    match user {
        Some(u) => u.person_id,
        None => nobody(),
    }
}

/// Tells whether the user is an admin.
pub fn is_admin(user: Option<&LocalUser>) -> (admin: bool)
    ensures
        admin == policy::is_admin(user),
{
    match user {
        Some(u) => u.admin,
        None => false,
    }
}

/// The conditions on reading a post.
pub fn read_selection(
    post_id: PostId,
    my_local_user: Option<&LocalUser>,
    is_mod_or_admin: bool,
) -> (selection: Selection)
    ensures
        selection.viewer == policy::person_of(my_local_user),
        forall|db: &Database, c: Candidate<'_>| #[trigger]
            filter::all_hold(selection.filters@, db, c) == (c.counts.post_id == post_id
                && policy::readable(db, c, my_local_user, is_mod_or_admin)),
{
    broadcast use filter::lemma_push_holds;

    let mut filters: Vec<Filter> = Vec::new();
    filters.push(Filter::PostIs(post_id));
    if !is_mod_or_admin {
        let me = person_id_join(my_local_user);
        let reader = match my_local_user {
            Some(u) => u.person_id,
            None => PersonId(0),
        };
        filters.push(Filter::UnsetOrBy(Flag::CommunityRemoved, me));
        filters.push(Filter::UnsetOrBy(Flag::PostRemoved, me));
        filters.push(Filter::UnsetOrBy(Flag::CommunityDeleted, me));
        filters.push(Filter::UnsetOrBy(Flag::PostDeleted, me));
        filters.push(Filter::NotPrivateOrAccepted(reader));
    }
    if my_local_user.is_none() {
        filters.push(Filter::PublicCommunity);
    }
    Selection { viewer: person_id(my_local_user), filters }
}

impl<'a> PostQuery<'a> {
    /// Keeps to communities that are not deleted, and to posts that are neither deleted nor
    /// scheduled unless they are the viewer's own.
    fn push_state(&self, filters: &mut Vec<Filter>)
        ensures
            forall|db: &Database, c: Candidate<'_>| #[trigger]
                filter::all_hold(final(filters)@, db, c) == (filter::all_hold(old(filters)@, db, c)
                    && policy::state_rule(c, *self)),
    {
        broadcast use filter::lemma_push_holds;

        filters.push(Filter::Unset(Flag::CommunityDeleted));
        match person_id(self.local_user) {
            Some(me) => {
                filters.push(Filter::UnsetOrBy(Flag::PostDeleted, me));
                filters.push(Filter::UnsetOrBy(Flag::PostScheduled, me));
            },
            None => {
                filters.push(Filter::Unset(Flag::PostDeleted));
                filters.push(Filter::Unset(Flag::PostScheduled));
            },
        }
    }

    /// Leaves out what is removed, except for an admin who looks at a profile.
    fn push_removal(&self, filters: &mut Vec<Filter>)
        ensures
            forall|db: &Database, c: Candidate<'_>| #[trigger]
                filter::all_hold(final(filters)@, db, c) == (filter::all_hold(old(filters)@, db, c)
                    && policy::removal_rule(c, *self)),
    {
        broadcast use filter::lemma_push_holds;

        if !(self.creator_id.is_some() && is_admin(self.local_user)) {
            filters.push(Filter::Unset(Flag::CommunityRemoved));
            filters.push(Filter::Unset(Flag::PostRemoved));
        }
    }

    /// Keeps to the community and to the creator that the query names.
    fn push_scope(&self, filters: &mut Vec<Filter>)
        ensures
            forall|db: &Database, c: Candidate<'_>| #[trigger]
                filter::all_hold(final(filters)@, db, c) == (filter::all_hold(old(filters)@, db, c)
                    && policy::scope_rule(c, *self)),
    {
        broadcast use filter::lemma_push_holds;

        if let Some(id) = self.community_id {
            filters.push(Filter::InCommunity(id));
        }
        if let Some(id) = self.creator_id {
            filters.push(Filter::By(id));
        }
    }

    /// The listing type of the query.
    pub fn listing_type_or_default(&self, site: &Site) -> (t: ListingType)
        ensures
            t == policy::listing_type(*self, *site),
    {
        match self.listing_type {
            Some(t) => t,
            None => site.listing_type,
        }
    }

    /// Keeps to the communities of the listing type.
    fn push_listing(&self, site: &Site, filters: &mut Vec<Filter>)
        ensures
            forall|db: &Database, c: Candidate<'_>| #[trigger]
                filter::all_hold(final(filters)@, db, c) == (filter::all_hold(old(filters)@, db, c)
                    && policy::listing_rule(db, c, *self, *site)),
    {
        broadcast use filter::lemma_push_holds;

        let me = person_id_join(self.local_user);
        match self.listing_type_or_default(site) {
            ListingType::Subscribed => filters.push(Filter::FollowedBy(me)),
            ListingType::Local => {
                filters.push(Filter::LocalCommunity);
                filters.push(Filter::NotHiddenOrFollowedBy(me));
            },
            ListingType::All => filters.push(Filter::NotHiddenOrFollowedBy(me)),
            ListingType::ModeratorView => filters.push(Filter::ModeratedBy(me)),
        }
    }

    /// Keeps to what the search finds.
    fn push_search(&self, filters: &mut Vec<Filter>)
        ensures
            forall|db: &Database, c: Candidate<'_>| #[trigger]
                filter::all_hold(final(filters)@, db, c) == (filter::all_hold(old(filters)@, db, c)
                    && policy::search_rule(db, c, *self)),
    {
        broadcast use filter::lemma_push_holds;

        if let Some(term) = &self.search_term {
            if is_on(self.url_only) {
                filters.push(Filter::UrlIs(term.clone()));
            } else {
                if is_on(self.title_only) {
                    filters.push(Filter::NameLike(term.clone()));
                } else {
                    filters.push(Filter::NameOrBodyLike(term.clone()));
                }
                filters.push(Filter::NeitherRemovedNorDeleted);
            }
        }
    }

    /// Leaves out the content that the query and the viewer's settings do not want.
    fn push_content(&self, site: &Site, filters: &mut Vec<Filter>)
        ensures
            forall|db: &Database, c: Candidate<'_>| #[trigger]
                filter::all_hold(final(filters)@, db, c) == (filter::all_hold(old(filters)@, db, c)
                    && policy::content_rule(c, *self, *site)),
    {
        broadcast use filter::lemma_push_holds;

        let show_nsfw = match (self.show_nsfw, self.local_user) {
            (Some(b), _) => b,
            (None, Some(u)) => u.show_nsfw,
            (None, None) => site.show_nsfw,
        };
        if !show_nsfw {
            filters.push(Filter::Unset(Flag::PostNsfw));
            filters.push(Filter::Unset(Flag::CommunityNsfw));
        }
        let show_bots = match self.local_user {
            Some(u) => u.show_bot_accounts,
            None => true,
        };
        if !show_bots {
            filters.push(Filter::Unset(Flag::CreatorIsBot));
        }
        if is_on(self.no_comments_only) {
            filters.push(Filter::NoComments);
        }
    }

    /// Keeps to saved posts, or leaves out read ones, and leaves out hidden ones.
    fn push_history(&self, filters: &mut Vec<Filter>)
        ensures
            forall|db: &Database, c: Candidate<'_>| #[trigger]
                filter::all_hold(final(filters)@, db, c) == (filter::all_hold(old(filters)@, db, c)
                    && policy::history_rule(db, c, *self)),
    {
        broadcast use filter::lemma_push_holds;

        let show_read = match (self.show_read, self.local_user) {
            (Some(b), _) => b,
            (None, Some(u)) => u.show_read_posts,
            (None, None) => true,
        };
        if is_on(self.saved_only) {
            filters.push(Filter::Saved);
        } else if !show_read {
            if let (None, Some(me)) = (self.creator_id, person_id(self.local_user)) {
                filters.push(Filter::NotReadBy(me));
            }
        }
        if !is_on(self.show_hidden) {
            if let (None, Some(me)) = (self.creator_id, person_id(self.local_user)) {
                filters.push(Filter::NotHiddenBy(me));
            }
        }
    }

    /// Keeps to what the viewer voted for, or against.
    fn push_vote(&self, filters: &mut Vec<Filter>)
        ensures
            forall|db: &Database, c: Candidate<'_>| #[trigger]
                filter::all_hold(final(filters)@, db, c) == (filter::all_hold(old(filters)@, db, c)
                    && policy::vote_rule(db, c, *self)),
    {
        broadcast use filter::lemma_push_holds;

        if let Some(me) = person_id(self.local_user) {
            if is_on(self.liked_only) {
                filters.push(Filter::NotBy(me));
                filters.push(Filter::VoteIs(me, 1));
            } else if is_on(self.disliked_only) {
                filters.push(Filter::NotBy(me));
                filters.push(Filter::VoteIs(me, -1));
            }
        }
    }

    /// Keeps to the communities that the viewer may see.
    fn push_visibility(&self, filters: &mut Vec<Filter>)
        ensures
            forall|db: &Database, c: Candidate<'_>| #[trigger]
                filter::all_hold(final(filters)@, db, c) == (filter::all_hold(old(filters)@, db, c)
                    && policy::visibility_rule(db, c, *self)),
    {
        broadcast use filter::lemma_push_holds;

        if self.local_user.is_none() {
            filters.push(Filter::PublicCommunity);
        }
        if !is_admin(self.local_user) {
            filters.push(Filter::NotPrivateOrAccepted(person_id_join(self.local_user)));
        }
    }

    /// Keeps to the viewer's languages, and leaves out what the viewer blocks.
    fn push_personal(&self, site: &Site, filters: &mut Vec<Filter>)
        ensures
            forall|db: &Database, c: Candidate<'_>| #[trigger]
                filter::all_hold(final(filters)@, db, c) == (filter::all_hold(old(filters)@, db, c)
                    && policy::personal_rule(db, c, *self, *site)),
    {
        broadcast use filter::lemma_push_holds;

        let moderating = match self.listing_type_or_default(site) {
            ListingType::ModeratorView => true,
            _ => false,
        };
        if let Some(u) = self.local_user {
            if !moderating {
                filters.push(Filter::LanguageOf(u.id));
                filters.push(Filter::CommunityNotBlockedBy(u.person_id));
                filters.push(Filter::InstanceNotBlockedBy(u.person_id));
                filters.push(Filter::CreatorNotBlockedBy(u.person_id));
            }
        }
    }

    /// The main sort of the query.
    pub fn sort_or_default(&self) -> (sort: PostSortType)
        ensures
            sort == policy::sort_type(*self),
    {
        match self.sort {
            Some(sort) => sort,
            None => PostSortType::Hot,
        }
    }

    /// Keeps to what was published in the period of the sort.
    fn push_period(&self, filters: &mut Vec<Filter>)
        ensures
            forall|db: &Database, c: Candidate<'_>| #[trigger]
                filter::all_hold(final(filters)@, db, c) == (filter::all_hold(old(filters)@, db, c)
                    && policy::period_rule(db, c, *self)),
    {
        broadcast use filter::lemma_push_holds;

        if let Some(span) = period(self.sort_or_default()) {
            filters.push(Filter::PublishedWithin(span));
        }
    }

    /// The conditions that a query puts on posts.
    pub fn filters(&self, site: &Site) -> (filters: Vec<Filter>)
        ensures
            forall|db: &Database, c: Candidate<'_>| #[trigger]
                filter::all_hold(filters@, db, c) == policy::listed(db, c, *self, *site),
    {
        let mut filters: Vec<Filter> = Vec::new();
        self.push_state(&mut filters);
        self.push_removal(&mut filters);
        self.push_scope(&mut filters);
        self.push_listing(site, &mut filters);
        self.push_search(&mut filters);
        self.push_content(site, &mut filters);
        self.push_history(&mut filters);
        self.push_vote(&mut filters);
        self.push_visibility(&mut filters);
        self.push_personal(site, &mut filters);
        self.push_period(&mut filters);
        filters
    }

    /// The keys by which a query orders posts.
    pub fn keys(&self) -> (keys: Vec<SortKey>)
        ensures
            keys@ == policy::sort_keys(*self),
    {
        let mut keys: Vec<SortKey> = Vec::new();
        if self.community_id.is_none() || self.community_id_just_for_prefetch {
            keys.push(SortKey::FeaturedLocal);
        } else {
            keys.push(SortKey::FeaturedCommunity);
        }
        let sort = self.sort_or_default();
        keys.push(sort_key(sort));
        match sort {
            PostSortType::New | PostSortType::Old | PostSortType::NewComments => {},
            _ => keys.push(SortKey::Published),
        }
        keys.push(SortKey::PostId);
        assert(keys@ =~= policy::sort_keys(*self));
        keys
    }

    /// `plan` carries out the query: its conditions admit the rows that the query lists, and its
    /// layout is that of the query.
    pub open spec fn is_plan(self, site: Site, window: Window, plan: ListPlan) -> bool {
        &&& plan.wf()
        &&& plan.selection.viewer == policy::person_of(self.local_user)
        &&& plan.layout() == policy::layout(self, window)
        &&& plan.for_upper_bound == self.community_id_just_for_prefetch
        &&& forall|db: &Database, c: Candidate<'_>| #[trigger]
            filter::all_hold(plan.selection.filters@, db, c) == policy::listed(db, c, self, site)
    }

    /// A plan that carries out the query yields the page of the query.
    pub proof fn lemma_plan_page(self, site: Site, window: Window, plan: ListPlan, db: &Database)
        requires
            self.is_plan(site, window, plan),
        ensures
            plan.page(db) == policy::page(db, self, site, window),
    {
        assert(plan.selection.rule(db) =~= policy::rule(db, self, site));
    }

    /// Turns the query into a plan.
    pub fn plan(&self, site: &Site, window: Window) -> (plan: ListPlan)
        ensures
            self.is_plan(*site, window, plan),
    {
        let near = bound(self.page_after, false);
        let far = bound(self.page_before_or_equal, true);
        let from_end = is_on(self.page_back);
        let plan = ListPlan {
            selection: Selection {
                viewer: person_id(self.local_user),
                filters: self.filters(site),
            },
            saved_first: is_on(self.saved_only),
            order: self.keys(),
            after: if from_end { far } else { near },
            before: if from_end { near } else { far },
            from_end,
            limit: window.limit,
            offset: window.offset,
            for_upper_bound: self.community_id_just_for_prefetch,
        };
        proof {
            let keys = policy::sort_keys(*self);
            assert(keys[keys.len() - 1] == SortKey::PostId);
        }
        plan
    }
}

/// The bound that a cursor sets.
fn bound(cursor: Option<PaginationCursorData>, or_equal: bool) -> (b: Option<Bound>)
    ensures
        b == policy::bound(cursor, or_equal),
{
    match cursor {
        Some(data) => Some(Bound { cursor: data.0, or_equal }),
        None => None,
    }
}

/// The key of a sort.
pub fn sort_key(sort: PostSortType) -> (key: SortKey)
    ensures
        key == policy::sort_key(sort),
{
    match sort {
        PostSortType::Active => SortKey::HotRankActive,
        PostSortType::Hot => SortKey::HotRank,
        PostSortType::Scaled => SortKey::ScaledRank,
        PostSortType::Controversial => SortKey::ControversyRank,
        PostSortType::New => SortKey::Published,
        PostSortType::Old => SortKey::ReversePublished,
        PostSortType::NewComments => SortKey::NewestCommentTime,
        PostSortType::MostComments => SortKey::Comments,
        PostSortType::TopAll => SortKey::Score,
        PostSortType::TopYear => SortKey::Score,
        PostSortType::TopMonth => SortKey::Score,
        PostSortType::TopWeek => SortKey::Score,
        PostSortType::TopDay => SortKey::Score,
        PostSortType::TopHour => SortKey::Score,
        PostSortType::TopSixHour => SortKey::Score,
        PostSortType::TopTwelveHour => SortKey::Score,
        PostSortType::TopThreeMonths => SortKey::Score,
        PostSortType::TopSixMonths => SortKey::Score,
        PostSortType::TopNineMonths => SortKey::Score,
    }
}

/// How far back a sort looks.
pub fn period(sort: PostSortType) -> (span: Option<Interval>)
    ensures
        span == policy::period(sort),
{
    match sort {
        PostSortType::TopYear => Some(interval::years(1)),
        PostSortType::TopMonth => Some(interval::months(1)),
        PostSortType::TopWeek => Some(interval::weeks(1)),
        PostSortType::TopDay => Some(interval::days(1)),
        PostSortType::TopHour => Some(interval::hours(1)),
        PostSortType::TopSixHour => Some(interval::hours(6)),
        PostSortType::TopTwelveHour => Some(interval::hours(12)),
        PostSortType::TopThreeMonths => Some(interval::months(3)),
        PostSortType::TopSixMonths => Some(interval::months(6)),
        PostSortType::TopNineMonths => Some(interval::months(9)),
        _ => None,
    }
}

} // verus!
