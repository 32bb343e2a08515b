//! Pagination metadata, page requests and the page plan.
//!
//! A list endpoint answers one page at a time. Every answer carries a
//! [`Pagination`] record that says where the page lies in the whole result,
//! and the request for a page is a [`PaginatedRequest`]: the query's URL and
//! a page number. The functions here decide how many pages a query needs
//! and whether a page that was just read is the last one.

use vstd::prelude::*;

use crate::error::FetchError;
use crate::error::UrlError;
use crate::text::decimal;
use crate::text::decimal_text;
use crate::text::pair_views;
use crate::text::text_result;
use crate::urls::build_url;
use crate::urls::url_outcome;

verus! {

/// Number of items requested per page.
pub const DEFAULT_COUNT_PER_PAGE: usize = 50;

/// Number of page fetches kept in flight at once.
pub const DEFAULT_PAGES_CONCURRENCY: usize = 8;

/// Pagination info for paginated data: where one page lies in the result.
#[derive(Debug, Clone, Copy, PartialEq, Eq)]
pub struct Pagination {
    /// Number of this page, counted from 1.
    pub page: u32,
    /// Number of items that a full page holds.
    pub per_page: u32,
    /// Number of items on this page.
    pub count: u32,
    /// Number of items in the whole result, where the server reports it.
    pub total_count: Option<u32>,
    /// Number of items on the pages before this one.
    pub offset: u32,
}

impl Pagination {
    /// What holds of every record that a well-behaved server sends: pages
    /// are counted from 1, a full page holds at least one item, no page
    /// holds more than a full page, and no page reaches past the end of the
    /// result.
    pub open spec fn well_formed(self) -> bool {
        &&& self.page >= 1
        &&& self.per_page > 0
        &&& self.count <= self.per_page
        &&& (self.total_count matches Some(total) ==> self.count + self.offset <= total)
    }

    /// Whether the page is full: it holds as many items as a page can hold.
    /// An empty page is never full.
    pub open spec fn full(self) -> bool {
        self.count > 0 && self.count >= self.per_page
    }

    /// Whether items remain after this page. Where the server reports the
    /// total, they do as long as the page and those before it hold fewer
    /// items than the result has. Where it reports none, a full page is
    /// taken to be followed by another, and a short or empty page is the last.
    pub open spec fn more_follows(self) -> bool {
        match self.total_count {
            Some(total) => self.count + self.offset < total,
            None => self.full(),
        }
    }

    /// Checks [`Pagination::well_formed`].
    pub fn is_well_formed(&self) -> (ok: bool)
        ensures
            ok == self.well_formed(),
    {
        let within = match self.total_count {
            Some(total) => (self.count as u64 + self.offset as u64) <= (total as u64),
            None => true,
        };
        self.page >= 1 && self.per_page > 0 && self.count <= self.per_page && within
    }

    /// Whether items remain after this page: with a reported total, the
    /// page and those before it hold fewer items than the result has;
    /// without one, the page is full.
    pub fn has_next(&self) -> (follows: bool)
        ensures
            follows == self.more_follows(),
    {
        match self.total_count {
            Some(total) => (self.count as u64 + self.offset as u64) < (total as u64),
            None => self.count > 0 && self.count >= self.per_page,
        }
    }

    /// A short page ends a result of unknown size: a record without total
    /// whose page holds fewer items than a page can hold is followed by no
    /// other, whatever its offset.
    pub proof fn law_short_page_is_last(self)
        requires
            self.total_count is None,
            self.count < self.per_page,
        ensures
            !self.more_follows(),
    {
    }
}

/// One answer of a list endpoint: the page's items and its place in the result.
pub struct Page<T> {
    /// Where this page lies in the result.
    pub pagination: Pagination,
    /// The items of this page, in the server's order.
    pub items: Vec<T>,
}

impl<T> Page<T> {
    /// Returns a reference to pagination info.
    pub fn pagination(&self) -> (info: &Pagination)
        ensures
            *info == self.pagination,
    {
        &self.pagination
    }

    /// Consumes self and returns a Vec containing all the paginated data.
    pub fn data(self) -> (items: Vec<T>)
        ensures
            items == self.items,
    {
        self.items
    }
}

/// A request for paginated data: the URL of the query, filters included,
/// the number of the page to read, and the number of items to ask for.
#[derive(Debug)]
pub struct PaginatedRequest {
    /// URL of the query with all of the caller's filters in its query string.
    pub url: String,
    /// Number of the page to read, counted from 1.
    pub page: u32,
    /// Number of items that a full page holds.
    pub per_page: usize,
}

/// The name/value pairs that select one page: the page size, then the page number.
pub open spec fn page_pairs(per_page: nat, page: nat) -> Seq<(Seq<char>, Seq<char>)> {
    seq![
        ("limit"@, decimal_text(per_page)),
        ("page"@, decimal_text(page)),
    ]
}

impl PaginatedRequest {
    /// What holds of every request that can be sent: pages are counted
    /// from 1, and a page holds items.
    pub open spec fn well_formed(self) -> bool {
        self.page >= 1 && self.per_page > 0
    }

    /// The request for the first page of the query at `url`, in pages of
    /// [`DEFAULT_COUNT_PER_PAGE`] items.
    pub fn new(url: String) -> (request: Self)
        ensures
            request.url == url,
            request.page == 1,
            request.per_page == DEFAULT_COUNT_PER_PAGE,
            request.well_formed(),
    {
        PaginatedRequest { url, page: 1, per_page: DEFAULT_COUNT_PER_PAGE }
    }

    /// The same request in pages of `per_page` items.
    pub fn with_per_page(self, per_page: usize) -> (request: Self)
        ensures
            request.url == self.url,
            request.page == self.page,
            request.per_page == per_page,
    {
        PaginatedRequest { url: self.url, page: self.page, per_page }
    }

    /// The request for the page after this one, made by value: this request
    /// stays as it is.
    pub fn next_request(&self) -> (next: Self)
        requires
            self.page < u32::MAX,
        ensures
            next.url@ == self.url@,
            next.page == self.page + 1,
            next.per_page == self.per_page,
            self.well_formed() ==> next.well_formed(),
    {
        PaginatedRequest { url: self.url.clone(), page: self.page + 1, per_page: self.per_page }
    }

    /// The request for page `page` of the same query.
    pub fn for_page(&self, page: u32) -> (request: Self)
        ensures
            request.url@ == self.url@,
            request.page == page,
            request.per_page == self.per_page,
    {
        PaginatedRequest { url: self.url.clone(), page, per_page: self.per_page }
    }

    /// The pairs that this request adds to the query string: `limit`, the
    /// page size, and `page`, the page number.
    pub fn page_params(&self) -> (pairs: Vec<(String, String)>)
        ensures
            pair_views(pairs@) == page_pairs(self.per_page as nat, self.page as nat),
    {
        let mut pairs: Vec<(String, String)> = Vec::new();
        pairs.push(("limit".to_owned(), decimal(self.per_page as u64)));
        pairs.push(("page".to_owned(), decimal(self.page as u64)));
        assert(pair_views(pairs@) =~= page_pairs(self.per_page as nat, self.page as nat));
        pairs
    }

    /// The URL to read for this request: the query's URL with the page size
    /// and the page number appended to its query string.
    pub fn page_url(&self) -> (url: Result<String, UrlError>)
        ensures
            text_result(url) == url_outcome(
                self.url@,
                page_pairs(self.per_page as nat, self.page as nat),
            ),
    {
        let pairs = self.page_params();
        build_url(self.url.as_str(), &pairs)
    }

    /// The URL of the probe: the first page in pages of one item, read only
    /// to learn from its record how many items the result has.
    pub fn probe_url(&self) -> (url: Result<String, UrlError>)
        ensures
            text_result(url) == url_outcome(self.url@, page_pairs(1, 1)),
    {
        let probe = PaginatedRequest { url: self.url.clone(), page: 1, per_page: 1 };
        probe.page_url()
    }
}

/// The items of one page and, unless the page is the last, the request for
/// the page after it.
pub struct TurnedPage<T> {
    /// The items of the page.
    pub items: Vec<T>,
    /// The request for the next page; `None` after the last page.
    pub next_request: Option<PaginatedRequest>,
}

impl<T> TurnedPage<T> {
    /// A page that another page follows.
    pub fn next(items: Vec<T>, next_request: PaginatedRequest) -> (turned: Self)
        ensures
            turned.items == items,
            turned.next_request == Some(next_request),
    {
        TurnedPage { items, next_request: Some(next_request) }
    }

    /// The last page.
    pub fn last(items: Vec<T>) -> (turned: Self)
        ensures
            turned.items == items,
            turned.next_request is None,
    {
        TurnedPage { items, next_request: None }
    }
}

/// Whether the page read by `request` is followed by another: its record
/// says that items remain, and the next page number can be written.
pub open spec fn page_follows(request: PaginatedRequest, info: Pagination) -> bool {
    info.more_follows() && request.page < u32::MAX
}

/// Decides what follows the page `response` that was read for `request`:
/// the items of the page, and the request for the next page if the page's
/// record says that items remain after it. A short or empty page of a
/// result of unknown size is the last: no request follows it.
pub fn turn_page<T>(request: PaginatedRequest, response: Page<T>) -> (turned: TurnedPage<T>)
    ensures
        turned.items == response.items,
        page_follows(request, response.pagination) ==> (turned.next_request matches Some(next)
            && next.url == request.url && next.page == request.page + 1 && next.per_page
            == request.per_page),
        !page_follows(request, response.pagination) ==> turned.next_request is None,
{
    let mut request = request;
    if response.pagination.has_next() && request.page < u32::MAX {
        request.page = request.page + 1;
        TurnedPage::next(response.items, request)
    } else {
        TurnedPage::last(response.items)
    }
}

/// Whether an HTTP status reports success: it lies in `200..=299`.
pub open spec fn is_success(status: u16) -> bool {
    200 <= status <= 299
}

/// Judges the status of an answer before its body is read: any status
/// outside `200..=299` fails the page with [`FetchError::HttpStatus`], which
/// carries the status. Nothing is tried again.
pub fn check_status(status: u16) -> (checked: Result<(), FetchError>)
    ensures
        is_success(status) ==> checked is Ok,
        !is_success(status) ==> checked == Err::<(), FetchError>(FetchError::HttpStatus(status)),
{
    if 200 <= status && status <= 299 {
        Ok(())
    } else {
        Err(FetchError::HttpStatus(status))
    }
}

/// `ceil(items / per_page)` as a mathematical integer.
pub open spec fn pages_for(items: int, per_page: int) -> int {
    if items % per_page == 0 {
        items / per_page
    } else {
        items / per_page + 1
    }
}

/// Number of pages of `per_page` items needed to hold `items` items.
pub fn pages_needed(items: usize, per_page: usize) -> (pages: usize)
    requires
        per_page > 0,
    ensures
        pages == pages_for(items as int, per_page as int),
{
    let full: usize = items / per_page;
    if items % per_page == 0 {
        full
    } else {
        assert(full < usize::MAX) by (nonlinear_arith)
            requires
                full == items as int / per_page as int,
                items as int % per_page as int != 0,
                per_page > 0,
                items <= usize::MAX,
        {
            if per_page == 1 {
                assert(items as int % 1 == 0);
            } else {
                assert(items as int / per_page as int <= items as int / 2);
            }
        }
        full + 1
    }
}

} // verus!
