//! Listing posts, one request to the database at a time.

use vstd::prelude::*;

use crate::cursor::PaginationCursorData;
use crate::plan::ListPlan;
use crate::policy;
use crate::prefetch;
use crate::query::{is_on, person_id_join, PostQuery, Site, Window};
use crate::tables::{Candidate, Database, PostAggregates};
use crate::types::{CommunityId, ListingType, PersonId, QueryError};
use crate::view::PostView;

verus! {

/// What is to be done next to answer a query.
#[derive(PartialEq, Eq, Debug)]
pub enum Step {
    /// Give up with this error.
    Fail(QueryError),
    /// Find the largest community that this person follows, and go on with `after_largest`.
    FindLargest(PersonId),
    /// Carry out the plan, and go on with `after_bound`.
    FetchBound(ListPlan),
    /// Carry out the plan; its rows are the answer.
    Fetch(ListPlan),
    /// There is nothing to list.
    Nothing,
}

impl Step {
    /// Carrying out the step, which is the last, yields `rows`.
    pub open spec fn yields(self, db: &Database, rows: Seq<Candidate<'_>>) -> bool {
        match self {
            Step::Fetch(plan) => rows == plan.page(db),
            Step::Nothing => rows.len() == 0,
            _ => false,
        }
    }
}

impl<'a> PostQuery<'a> {
    /// Tells whether the query asks for a page of the subscribed listing whose far end is not
    /// known.
    pub fn is_without_upper_bound(&self) -> (b: bool)
        ensures
            b == self.lacks_upper_bound(),
    {
        let subscribed = match self.listing_type {
            Some(ListingType::Subscribed) => true,
            _ => false,
        };
        subscribed && self.community_id.is_none() && self.local_user.is_some()
            && self.page_before_or_equal.is_none()
    }

    /// `step` is how to start: a query whose far end need not be found is fetched at once, and one
    /// that combines an offset with a cursor fails.
    pub open spec fn is_first_step(
        self,
        site: Site,
        window: Result<Window, QueryError>,
        step: Step,
    ) -> bool {
        match window {
            Err(e) => step == Step::Fail(e),
            Ok(w) => if !self.lacks_upper_bound() {
                step matches Step::Fetch(plan) && self.is_plan(site, w, plan)
            } else if w.offset != 0 && self.page_after is Some {
                step == Step::Fail(QueryError::LegacyPagination)
            } else {
                step == Step::FindLargest(policy::person_or_nobody(self.local_user))
            },
        }
    }

    /// `step` is how to go on once the largest community is known, if there is one. Saved posts are
    /// fetched without a bound.
    pub open spec fn is_after_largest(
        self,
        site: Site,
        w: Window,
        largest: Option<CommunityId>,
        step: Step,
    ) -> bool {
        match largest {
            Some(id) => if self.saved_only == Some(true) {
                step matches Step::Fetch(plan) && self.is_plan(site, w, plan)
            } else {
                step matches Step::FetchBound(plan) && self.for_community(id).is_plan(site, w, plan)
            },
            None => step == Step::Nothing,
        }
    }

    /// `step` is how to go on once a page of the largest community is there.
    pub open spec fn is_after_bound(
        self,
        site: Site,
        w: Window,
        page: Seq<PostAggregates>,
        step: Step,
    ) -> bool {
        step matches Step::Fetch(plan) && self.bounded_by(w, page).is_plan(site, w, plan)
    }

    /// Carrying out `step`, and the step after it if it fetches a bound, yields `rows`.
    pub open spec fn goes_on_with(
        self,
        db: &Database,
        site: Site,
        w: Window,
        step: Step,
        rows: Seq<Candidate<'_>>,
    ) -> bool {
        match step {
            Step::FetchBound(plan) => exists|next: Step|
                {
                    &&& #[trigger] self.is_after_bound(
                        site,
                        w,
                        prefetch::counts_of(plan.page(db)),
                        next,
                    )
                    &&& next.yields(db, rows)
                },
            _ => step.yields(db, rows),
        }
    }

    /// Carrying out `step` and all the steps after it can yield `rows`.
    pub open spec fn leads_to(
        self,
        db: &Database,
        site: Site,
        w: Window,
        step: Step,
        rows: Seq<Candidate<'_>>,
    ) -> bool {
        match step {
            Step::FindLargest(me) => exists|largest: Option<CommunityId>, next: Step|
                {
                    &&& #[trigger] db.finds_largest(me, largest)
                    &&& #[trigger] self.is_after_largest(site, w, largest, next)
                    &&& self.goes_on_with(db, site, w, next, rows)
                },
            _ => self.goes_on_with(db, site, w, step, rows),
        }
    }

    /// How to start. `window` is what the page number and the page size of the query come to.
    pub fn first_step(&self, site: &Site, window: &Result<Window, QueryError>) -> (step: Step)
        ensures
            self.is_first_step(*site, *window, step),
    {
        match window {
            Err(e) => Step::Fail(e.clone()),
            Ok(w) => {
                if !self.is_without_upper_bound() {
                    return Step::Fetch(self.plan(site, *w));
                }
                if w.offset != 0 && self.page_after.is_some() {
                    return Step::Fail(QueryError::LegacyPagination);
                }
                match self.local_user {
                    Some(u) => Step::FindLargest(u.person_id),
                    None => Step::Nothing,
                }
            },
        }
    }

    /// How to go on once the largest community that the viewer follows is known, if there is one.
    /// Saved posts are fetched without a bound.
    pub fn after_largest(
        &self,
        site: &Site,
        window: Window,
        largest: Option<CommunityId>,
    ) -> (step: Step)
        ensures
            self.is_after_largest(*site, window, largest, step),
    {
        match largest {
            Some(id) => {
                if is_on(self.saved_only) {
                    return Step::Fetch(self.plan(site, window));
                }
                let one = PostQuery {
                    community_id: Some(id),
                    community_id_just_for_prefetch: true,
                    ..self.clone()
                };
                Step::FetchBound(one.plan(site, window))
            },
            None => Step::Nothing,
        }
    }

    /// The query with the bound that a page of one community sets.
    pub fn with_bound(self, window: Window, page: &Vec<PostAggregates>) -> (q: PostQuery<'a>)
        requires
            window.limit > 0,
        ensures
            q == self.bounded_by(window, page@),
    {
        if is_on(self.saved_only) || (page.len() as u64) < window.limit {
            return self;
        }
        let item = if is_on(self.page_back) { page[0] } else { page[page.len() - 1] };
        PostQuery { page_before_or_equal: Some(PaginationCursorData(item)), ..self }
    }

    /// How to go on once a page of the largest community is there: the counts of its posts.
    pub fn after_bound(&self, site: &Site, window: Window, page: &Vec<PostAggregates>) -> (step:
        Step)
        requires
            window.limit > 0,
        ensures
            self.is_after_bound(*site, window, page@, step),
    {
        let q = self.clone().with_bound(window, page);
        Step::Fetch(q.plan(site, window))
    }

    /// `rows` is what the query lists. Where the far end of the page has to be found first, one of
    /// the largest communities that the viewer follows gives it.
    pub open spec fn lists(
        self,
        db: &Database,
        site: Site,
        w: Window,
        rows: Seq<Candidate<'_>>,
    ) -> bool {
        let me = policy::person_or_nobody(self.local_user);
        if !self.lacks_upper_bound() {
            rows == policy::page(db, self, site, w)
        } else if !db.has_subscribed(me) {
            rows.len() == 0
        } else {
            exists|id: CommunityId|
                {
                    &&& #[trigger] db.is_largest_subscribed(me, id)
                    &&& rows == policy::page(
                        db,
                        self.bounded_by(
                            w,
                            prefetch::counts_of(policy::page(db, self.for_community(id), site, w)),
                        ),
                        site,
                        w,
                    )
                }
        }
    }

    /// Finds the far end of a page of the subscribed listing: the query with the bound that one
    /// page of the largest community that the viewer follows sets. There is none where the viewer
    /// follows no community.
    pub fn prefetch_upper_bound_for_page_before(
        &self,
        site: &Site,
        window: &Result<Window, QueryError>,
        db: &Database,
    ) -> (bounded: Result<Option<PostQuery<'a>>, QueryError>)
        requires
            db.wf(),
            *window matches Ok(w) ==> (w.offset == 0 || self.page_after is None ==> {
                &&& self.local_user is Some
                &&& db.has_subscribed(policy::person_or_nobody(self.local_user)) ==> w.limit > 0
            }),
        ensures
            match *window {
                Err(e) => bounded == Err::<Option<PostQuery<'a>>, QueryError>(e),
                Ok(w) => {
                    let me = policy::person_or_nobody(self.local_user);
                    if w.offset != 0 && self.page_after is Some {
                        bounded == Err::<Option<PostQuery<'a>>, QueryError>(
                            QueryError::LegacyPagination,
                        )
                    } else if !db.has_subscribed(me) {
                        bounded == Ok::<Option<PostQuery<'a>>, QueryError>(None)
                    } else {
                        bounded matches Ok(Some(q)) && exists|id: CommunityId|
                            {
                                &&& #[trigger] db.is_largest_subscribed(me, id)
                                &&& q == self.bounded_by(
                                    w,
                                    prefetch::counts_of(
                                        policy::page(db, self.for_community(id), *site, w),
                                    ),
                                )
                            }
                    }
                },
            },
    {
        let w = match window {
            Ok(w) => *w,
            Err(e) => {
                return Err(e.clone());
            },
        };
        if w.offset != 0 && self.page_after.is_some() {
            return Err(QueryError::LegacyPagination);
        }
        let me = person_id_join(self.local_user);
        let largest = db.largest_subscribed(me);
        proof {
            if let Some(id) = largest {
                prefetch::lemma_largest_is_subscribed(db, me, id);
            }
        }
        match self.after_largest(site, w, largest) {
            Step::FetchBound(plan) => {
                let rows = plan.rows(db);
                let page = counts(&rows);
                proof {
                    self.for_community(largest->0).lemma_plan_page(*site, w, plan, db);
                }
                Ok(Some(self.clone().with_bound(w, &page)))
            },
            Step::Fetch(_) => Ok(Some(self.clone())),
            _ => Ok(None),
        }
    }

    /// The viewer of a subscribed listing whose far end is not known follows no community, or one
    /// whose size is known.
    pub open spec fn reaches_listing(self, db: &Database) -> bool {
        let me = policy::person_or_nobody(self.local_user);
        self.lacks_upper_bound() ==> db.has_subscribed(me) || db.follows_nothing(me)
    }

    /// Lists the posts that the query asks for. `window` is what the page number and the page size
    /// of the query come to.
    pub fn list<'b>(
        self,
        site: &Site,
        window: Result<Window, QueryError>,
        db: &'b Database,
    ) -> (views: Result<Vec<PostView<'b>>, QueryError>)
        requires
            db.wf(),
            window matches Ok(w) ==> {
                &&& self.lacks_upper_bound()
                &&& w.offset == 0 || self.page_after is None
                &&& db.has_subscribed(policy::person_or_nobody(self.local_user))
            } ==> w.limit > 0,
        ensures
            match window {
                Err(e) => views == Err::<Vec<PostView<'b>>, QueryError>(e),
                Ok(w) => if self.lacks_upper_bound() && w.offset != 0 && self.page_after is Some {
                    views == Err::<Vec<PostView<'b>>, QueryError>(QueryError::LegacyPagination)
                } else {
                    views matches Ok(v) && exists|rows: Seq<Candidate<'_>>|
                        {
                            &&& #[trigger] self.lists(db, *site, w, rows)
                            &&& self.reaches_listing(db) ==> rows == policy::page(
                                db,
                                self,
                                *site,
                                w,
                            )
                            &&& db.shows_all(policy::person_of(self.local_user), rows, v@)
                        }
                },
            },
    {
        let w = match &window {
            Ok(w) => *w,
            Err(e) => {
                return Err(e.clone());
            },
        };
        if !self.is_without_upper_bound() {
            let plan = self.plan(site, w);
            proof {
                self.lemma_plan_page(*site, w, plan, db);
                assert(self.lists(db, *site, w, plan.page(db)));
            }
            return Ok(plan.run(db));
        }
        let ghost me = policy::person_or_nobody(self.local_user);
        match self.prefetch_upper_bound_for_page_before(site, &window, db) {
            Err(e) => Err(e),
            Ok(Some(query)) => {
                let plan = query.plan(site, w);
                proof {
                    query.lemma_plan_page(*site, w, plan, db);
                    assert(self.lists(db, *site, w, plan.page(db)));
                    law_lists_page(db, self, *site, w, plan.page(db));
                }
                Ok(plan.run(db))
            },
            Ok(None) => {
                let views: Vec<PostView<'b>> = Vec::new();
                proof {
                    let rows = Seq::<Candidate<'_>>::empty();
                    assert(self.lists(db, *site, w, rows));
                    if self.reaches_listing(db) {
                        law_lists_page(db, self, *site, w, rows);
                    }
                    assert(db.shows_all(policy::person_of(self.local_user), rows, views@));
                }
                Ok(views)
            },
        }
    }
}

/// What a query lists is its page, whether or not the far end of the page was found first, and for
/// saved posts too. Left out are viewers of the subscribed listing who follow communities of which
/// none has its size known: they are taken to follow nothing.
pub proof fn law_lists_page(
    db: &Database,
    q: PostQuery<'_>,
    site: Site,
    w: Window,
    rows: Seq<Candidate<'_>>,
)
    requires
        db.wf(),
        q.reaches_listing(db),
        q.lists(db, site, w, rows),
    ensures
        rows == policy::page(db, q, site, w),
{
    let me = policy::person_or_nobody(q.local_user);
    if q.lacks_upper_bound() {
        if db.has_subscribed(me) {
            let id = choose|id: CommunityId|
                {
                    &&& #[trigger] db.is_largest_subscribed(me, id)
                    &&& rows == policy::page(
                        db,
                        q.bounded_by(
                            w,
                            prefetch::counts_of(policy::page(db, q.for_community(id), site, w)),
                        ),
                        site,
                        w,
                    )
                };
            prefetch::law_bound_keeps_page(db, q, site, w, id);
        } else {
            prefetch::law_nothing_subscribed(db, q, site, w);
        }
    }
}

/// Going step by step lists what the query lists, whichever steps it takes: whatever rows the first
/// step and those after it lead to are rows of the query, and the first step fails just where
/// an offset is combined with a cursor.
pub proof fn law_steps_list(
    db: &Database,
    q: PostQuery<'_>,
    site: Site,
    w: Window,
    first: Step,
    rows: Seq<Candidate<'_>>,
)
    requires
        q.is_first_step(site, Ok(w), first),
    ensures
        q.leads_to(db, site, w, first, rows) ==> q.lists(db, site, w, rows),
        first is Fail <==> q.lacks_upper_bound() && w.offset != 0 && q.page_after is Some,
        first is Fail ==> first == Step::Fail(QueryError::LegacyPagination),
{
    if q.leads_to(db, site, w, first, rows) {
        match first {
            Step::Fetch(plan) => {
                q.lemma_plan_page(site, w, plan, db);
            },
            Step::FindLargest(me) => {
                let (largest, next) = choose|largest: Option<CommunityId>, next: Step|
                    {
                        &&& #[trigger] db.finds_largest(me, largest)
                        &&& #[trigger] q.is_after_largest(site, w, largest, next)
                        &&& q.goes_on_with(db, site, w, next, rows)
                    };
                if let Some(id) = largest {
                    lemma_steps_after_largest(db, q, site, w, id, next, rows);
                }
            },
            _ => {},
        }
    }
}

/// The steps after the largest community was found lead to rows of the query.
proof fn lemma_steps_after_largest(
    db: &Database,
    q: PostQuery<'_>,
    site: Site,
    w: Window,
    id: CommunityId,
    step: Step,
    rows: Seq<Candidate<'_>>,
)
    requires
        q.lacks_upper_bound(),
        db.is_largest_subscribed(policy::person_or_nobody(q.local_user), id),
        q.is_after_largest(site, w, Some(id), step),
        q.goes_on_with(db, site, w, step, rows),
    ensures
        q.lists(db, site, w, rows),
{
    prefetch::lemma_largest_is_subscribed(db, policy::person_or_nobody(q.local_user), id);
    match step {
        Step::Fetch(plan) => {
            q.lemma_plan_page(site, w, plan, db);
        },
        Step::FetchBound(bound_plan) => {
            let page = prefetch::counts_of(bound_plan.page(db));
            let next = choose|next: Step|
                {
                    &&& #[trigger] q.is_after_bound(site, w, page, next)
                    &&& next.yields(db, rows)
                };
            q.for_community(id).lemma_plan_page(site, w, bound_plan, db);
            q.bounded_by(w, page).lemma_plan_page(site, w, next->Fetch_0, db);
        },
        _ => {},
    }
}

/// Going step by step leads somewhere: unless the first step fails, there are rows that the steps
/// lead to.
pub proof fn law_steps_end(
    db: &Database,
    q: PostQuery<'_>,
    site: Site,
    w: Window,
    first: Step,
    largest: Option<CommunityId>,
    second: Step,
    third: Step,
) -> (rows: Seq<Candidate<'static>>)
    requires
        q.is_first_step(site, Ok(w), first),
        first !is Fail,
        first matches Step::FindLargest(me) ==> {
            &&& db.finds_largest(me, largest)
            &&& q.is_after_largest(site, w, largest, second)
        },
        second matches Step::FetchBound(plan) ==> q.is_after_bound(
            site,
            w,
            prefetch::counts_of(plan.page(db)),
            third,
        ),
    ensures
        q.leads_to(db, site, w, first, rows),
{
    let last = if first is Fetch {
        first
    } else if second is FetchBound {
        third
    } else {
        second
    };
    let rows = match last {
        Step::Fetch(plan) => plan.page(db),
        _ => Seq::empty(),
    };
    assert(last.yields(db, rows));
    if first is FindLargest {
        assert(q.goes_on_with(db, site, w, second, rows));
    }
    rows
}

/// The counts of the rows.
pub fn counts(rows: &Vec<Candidate<'_>>) -> (counts: Vec<PostAggregates>)
    ensures
        counts@ == prefetch::counts_of(rows@),
{
    let mut counts: Vec<PostAggregates> = Vec::new();
    let mut i: usize = 0;
    while i < rows.len()
        invariant
            i <= rows@.len(),
            counts@ =~= prefetch::counts_of(rows@).take(i as int),
        decreases rows.len() - i,
    {
        counts.push(*rows[i].counts);
        i += 1;
    }
    assert(counts@ =~= prefetch::counts_of(rows@));
    counts
}

} // verus!
