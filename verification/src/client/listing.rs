//! Walking the pages of a listing: which page to ask for next, when to stop,
//! and what the whole listing comes to.
//!
//! The walk itself sends nothing. It forms the request for the page to
//! fetch; the caller sends it and hands the answer back.

use crate::client::github::{ApiEndpoints, PathParams, PathParamsView};
use crate::client::github_error::{ApiError, ApiErrorView};
use crate::client::page::{page_request, request_page};
use vstd::prelude::*;

verus! {

/// The page limit of a listing for which none was asked: large enough to
/// be no limit in practice, small enough that every walk ends.
pub const UNBOUNDED_PAGES: u32 = 65535;

/// The limit that a listing is walked with.
pub open spec fn page_limit(max_pages: Option<u32>) -> nat {
    match max_pages {
        Some(k) => k as nat,
        None => UNBOUNDED_PAGES as nat,
    }
}

/// How far a walk has come.
#[derive(Clone, Debug, PartialEq, Eq)]
pub enum ListingStatus {
    /// No page so far was empty and none failed.
    Open,
    /// An empty page came back: there is nothing more to fetch.
    Exhausted,
    /// A page failed. The walk is over and its items are of no use.
    Failed(ApiError),
}

/// A walk through a listing, as plain values.
pub ghost struct ListingView<T> {
    /// The listing that is walked.
    pub endpoint: ApiEndpoints,
    /// The parameters of every request of the walk.
    pub params: PathParamsView,
    /// The page to ask for next; pages are numbered from 1.
    pub page_number: nat,
    /// The walk asks for no page with this number or a higher one.
    pub max_page_number: nat,
    /// The items of the pages received so far, in the order they came.
    pub items: Seq<T>,
    /// How many pages were asked for.
    pub requests: nat,
    pub status: ListingStatus,
}

impl<T> ListingView<T> {
    /// The walk before its first page.
    pub open spec fn initial(
        endpoint: ApiEndpoints,
        params: PathParamsView,
        max_pages: Option<u32>,
    ) -> Self {
        ListingView {
            endpoint,
            params,
            page_number: 1,
            max_page_number: page_limit(max_pages),
            items: Seq::empty(),
            requests: 0,
            status: ListingStatus::Open,
        }
    }

    /// Whether the walk goes on with another page.
    pub open spec fn wants_page(self) -> bool {
        self.status is Open && self.page_number < self.max_page_number
    }

    /// The request for the page that the walk goes on with: that page of
    /// the walk's listing, of the default size; or why none can be formed.
    pub open spec fn request(self) -> Result<Seq<char>, ApiErrorView> {
        page_request(self.endpoint, self.params, Some(self.page_number as u32), None)
    }

    /// What holds of every walk: pages are asked for one by one from the
    /// first, and never at or beyond the limit.
    pub open spec fn wf(self) -> bool {
        &&& self.page_number >= 1
        &&& self.page_number == 1 || self.page_number <= self.max_page_number
        &&& self.status is Open ==> self.requests + 1 == self.page_number
        &&& !(self.status is Open) ==> self.requests == self.page_number
            && self.page_number < self.max_page_number
    }

    /// The walk after the answer to the page it asked for. An answer that
    /// comes when no page is wanted changes nothing.
    pub open spec fn receive(self, response: Result<Seq<T>, ApiError>) -> Self {
        if !self.wants_page() {
            self
        } else {
            match response {
                Err(e) => ListingView {
                    status: ListingStatus::Failed(e),
                    requests: self.requests + 1,
                    ..self
                },
                Ok(page) => if page.len() == 0 {
                    ListingView {
                        status: ListingStatus::Exhausted,
                        requests: self.requests + 1,
                        ..self
                    }
                } else {
                    ListingView {
                        items: self.items + page,
                        page_number: self.page_number + 1,
                        requests: self.requests + 1,
                        ..self
                    }
                },
            }
        }
    }

    /// What the walk comes to: the first failure, or else all items.
    pub open spec fn outcome(self) -> Result<Seq<T>, ApiError> {
        match self.status {
            ListingStatus::Failed(e) => Err(e),
            _ => Ok(self.items),
        }
    }

    /// The walk after a series of answers, each given to the page that the
    /// walk asked for at that point.
    pub open spec fn run(self, responses: Seq<Result<Seq<T>, ApiError>>) -> Self
        decreases responses.len(),
    {
        if responses.len() == 0 {
            self
        } else {
            self.receive(responses[0]).run(responses.skip(1))
        }
    }
}

/// The answers of a listing that has exactly these pages: each page in
/// turn, then an empty one.
pub open spec fn pages_then_empty<T>(pages: Seq<Seq<T>>) -> Seq<Result<Seq<T>, ApiError>> {
    pages.map_values(|page: Seq<T>| Ok::<Seq<T>, ApiError>(page)).push(Ok(Seq::empty()))
}

/// From any open walk that has room below its limit for each of `pages` and
/// for the empty page after them, the walk takes every page, in order, and
/// ends at the empty one.
pub proof fn lemma_walk_takes_all<T>(start: ListingView<T>, pages: Seq<Seq<T>>)
    requires
        start.status is Open,
        start.page_number + pages.len() < start.max_page_number,
        forall|i: int| 0 <= i < pages.len() ==> (#[trigger] pages[i]).len() > 0,
    ensures
        start.run(pages_then_empty(pages)) == (ListingView {
            items: start.items + pages.flatten(),
            page_number: start.page_number + pages.len(),
            requests: start.requests + pages.len() + 1,
            status: ListingStatus::Exhausted,
            ..start
        }),
    decreases pages.len(),
{
    let responses = pages_then_empty(pages);
    let rest = responses.skip(1);
    if pages.len() == 0 {
        let end = start.receive(responses[0]);
        assert(rest.len() == 0);
        assert(end.run(rest) == end);
        assert(pages.flatten() =~= Seq::<T>::empty());
        assert(start.items + pages.flatten() =~= start.items);
    } else {
        let tail = pages.drop_first();
        let after = start.receive(responses[0]);
        assert(responses[0] == Ok::<Seq<T>, ApiError>(pages[0]));
        assert(rest =~= pages_then_empty(tail));
        assert(forall|i: int| 0 <= i < tail.len() ==> (#[trigger] tail[i]) == pages[i + 1]);
        lemma_walk_takes_all(after, tail);
        assert(pages.flatten() == pages.first() + tail.flatten());
        assert((start.items + pages[0]) + tail.flatten() =~= start.items + pages.flatten());
    }
}

/// A listing of `n` pages with items and then an empty page, walked with a
/// limit above `n + 1`, comes to the items of the `n` pages in their order,
/// after exactly `n + 1` requests.
pub proof fn lemma_listing_is_concatenation<T>(
    endpoint: ApiEndpoints,
    params: PathParamsView,
    pages: Seq<Seq<T>>,
    max_pages: Option<u32>,
)
    requires
        forall|i: int| 0 <= i < pages.len() ==> (#[trigger] pages[i]).len() > 0,
        pages.len() + 1 < page_limit(max_pages),
    ensures
        ({
            let end = ListingView::<T>::initial(endpoint, params, max_pages).run(
                pages_then_empty(pages),
            );
            &&& end.outcome() == Ok::<Seq<T>, ApiError>(pages.flatten())
            &&& end.requests == pages.len() + 1
            &&& !end.wants_page()
        }),
{
    let start = ListingView::<T>::initial(endpoint, params, max_pages);
    lemma_walk_takes_all(start, pages);
    assert(start.items + pages.flatten() =~= pages.flatten());
}

/// Whatever the answers, a walk stays as `wf` describes, and keeps its
/// limit.
pub proof fn lemma_run_keeps_wf<T>(start: ListingView<T>, responses: Seq<Result<Seq<T>, ApiError>>)
    requires
        start.wf(),
    ensures
        start.run(responses).wf(),
        start.run(responses).max_page_number == start.max_page_number,
    decreases responses.len(),
{
    if responses.len() > 0 {
        lemma_run_keeps_wf(start.receive(responses[0]), responses.skip(1));
    }
}

/// A walk with limit `k` asks for at most `k` pages, whatever comes back,
/// be every page full: for fewer than `k`, in fact, unless `k` is zero.
pub proof fn lemma_requests_bounded<T>(
    endpoint: ApiEndpoints,
    params: PathParamsView,
    max_pages: Option<u32>,
    responses: Seq<Result<Seq<T>, ApiError>>,
)
    ensures
        ({
            let end = ListingView::<T>::initial(endpoint, params, max_pages).run(responses);
            &&& end.requests <= page_limit(max_pages)
            &&& page_limit(max_pages) > 0 ==> end.requests < page_limit(max_pages)
        }),
{
    lemma_run_keeps_wf(ListingView::<T>::initial(endpoint, params, max_pages), responses);
}

/// The first failure ends a walk: later answers change nothing, and the
/// walk comes to that failure, not to the items gathered before it.
pub proof fn lemma_failure_is_final<T>(
    failed: ListingView<T>,
    responses: Seq<Result<Seq<T>, ApiError>>,
)
    requires
        failed.status is Failed,
    ensures
        failed.run(responses) == failed,
        failed.outcome() == Err::<Seq<T>, ApiError>(failed.status->Failed_0),
    decreases responses.len(),
{
    if responses.len() > 0 {
        lemma_failure_is_final(failed, responses.skip(1));
    }
}

/// The answer to a page request, with its items as a sequence.
pub open spec fn response_view<T>(response: Result<Vec<T>, ApiError>) -> Result<Seq<T>, ApiError> {
    match response {
        Ok(page) => Ok(page@),
        Err(e) => Err(e),
    }
}

/// A walk through the pages of one listing.
pub struct ListAll<T> {
    endpoint: ApiEndpoints,
    params: PathParams,
    page_number: u32,
    max_page_number: u32,
    items: Vec<T>,
    requests: u32,
    status: ListingStatus,
}

/// What a walk asks of its caller next.
pub enum ListStep<T> {
    /// Send a GET request to the address `request`, which asks for page
    /// `page`, and give the answer to `listing`.
    Fetch { page: u32, request: String, listing: ListAll<T> },
    /// The walk is over. Here is the listing, or the failure that ended it.
    Done(Result<Vec<T>, ApiError>),
}

impl<T> View for ListAll<T> {
    type V = ListingView<T>;

    closed spec fn view(&self) -> ListingView<T> {
        ListingView {
            endpoint: self.endpoint,
            params: self.params@,
            page_number: self.page_number as nat,
            max_page_number: self.max_page_number as nat,
            items: self.items@,
            requests: self.requests as nat,
            status: self.status,
        }
    }
}

impl<T> ListAll<T> {
    #[verifier::type_invariant]
    spec fn inv(self) -> bool {
        self@.wf()
    }

    /// A walk through the listing that `endpoint` and `params` name, from
    /// the first page, through at most the pages below `max_pages`.
    pub fn new(endpoint: ApiEndpoints, params: PathParams, max_pages: Option<u32>) -> (listing:
        Self)
        ensures
            listing@ == ListingView::<T>::initial(endpoint, params@, max_pages),
    {
        let max_page_number = match max_pages {
            Some(k) => k,
            None => UNBOUNDED_PAGES,
        };
        ListAll {
            endpoint,
            params,
            page_number: 1,
            max_page_number,
            items: Vec::new(),
            requests: 0,
            status: ListingStatus::Open,
        }
    }

    /// Hands over the next thing to do. As long as no page was empty, none
    /// failed and the limit is not reached, that is the request for the
    /// next page; where that request cannot be formed, the walk ends with
    /// the reason and nothing is sent. Otherwise it is the outcome.
    pub fn next(self) -> (step: ListStep<T>)
        ensures
            self@.wf(),
            match step {
                ListStep::Fetch { page, request, listing } => {
                    &&& self@.wants_page()
                    &&& page == self@.page_number
                    &&& self@.request() == Ok::<Seq<char>, ApiErrorView>(request@)
                    &&& listing@ == self@
                },
                ListStep::Done(outcome) => if self@.wants_page() {
                    outcome matches Err(e) && self@.request() == Err::<Seq<char>, ApiErrorView>(e@)
                } else {
                    response_view(outcome) == self@.outcome()
                },
            },
    {
        proof {
            use_type_invariant(&self);
        }
        match self.status {
            ListingStatus::Open => {
                if self.page_number < self.max_page_number {
                    let page = self.page_number;
                    match request_page(&self.endpoint, &self.params, Some(page), None) {
                        Ok(request) => ListStep::Fetch { page, request, listing: self },
                        Err(e) => ListStep::Done(Err(e)),
                    }
                } else {
                    ListStep::Done(Ok(self.items))
                }
            },
            ListingStatus::Exhausted => ListStep::Done(Ok(self.items)),
            ListingStatus::Failed(e) => ListStep::Done(Err(e)),
        }
    }

    /// Takes the answer to the page that was asked for. A page with items
    /// adds them and moves on to the next; an empty page or a failure ends
    /// the walk. An answer that comes when no page is wanted is dropped.
    pub fn receive(self, response: Result<Vec<T>, ApiError>) -> (listing: Self)
        ensures
            self@.wf(),
            listing@ == self@.receive(response_view(response)),
            listing@.wf(),
    {
        proof {
            use_type_invariant(&self);
        }
        let wanted = match self.status {
            ListingStatus::Open => self.page_number < self.max_page_number,
            _ => false,
        };
        if !wanted {
            return self;
        }
        let ListAll { endpoint, params, page_number, max_page_number, items, requests, status } =
            self;
        match response {
            Err(e) => ListAll {
                endpoint,
                params,
                page_number,
                max_page_number,
                items,
                requests: requests + 1,
                status: ListingStatus::Failed(e),
            },
            Ok(page) => {
                if page.len() == 0 {
                    ListAll {
                        endpoint,
                        params,
                        page_number,
                        max_page_number,
                        items,
                        requests: requests + 1,
                        status: ListingStatus::Exhausted,
                    }
                } else {
                    let mut items = items;
                    let mut page = page;
                    items.append(&mut page);
                    ListAll {
                        endpoint,
                        params,
                        page_number: page_number + 1,
                        max_page_number,
                        items,
                        requests: requests + 1,
                        status,
                    }
                }
            },
        }
    }
}

} // verus!
