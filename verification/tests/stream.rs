use prelate_rs::error::{FetchError, UrlError};
use prelate_rs::pagination::{turn_page, Page, PaginatedRequest, Pagination, TurnedPage};
use prelate_rs::stream::{PageStream, Phase, Plan};

const URL: &str = "https://aoe4world.com/api/v0/games?";

/// A synthetic server: `sizes[p - 1]` items on page `p`, numbered through,
/// nothing behind; pages listed in `failing` answer with status 500.
struct Server {
    sizes: Vec<usize>,
    per_page: u32,
    total_count: Option<u32>,
    failing: Vec<u32>,
}

impl Server {
    fn of_sizes(sizes: &[usize], per_page: u32, total_count: Option<u32>) -> Server {
        Server { sizes: sizes.to_vec(), per_page, total_count, failing: vec![] }
    }

    fn of_total(total: usize, per_page: u32) -> Server {
        let mut sizes = vec![];
        let mut left = total;
        while left > 0 {
            let size = left.min(per_page as usize);
            sizes.push(size);
            left -= size;
        }
        Server { sizes, per_page, total_count: Some(total as u32), failing: vec![] }
    }

    fn failing(mut self, pages: &[u32]) -> Server {
        self.failing = pages.to_vec();
        self
    }

    fn offset(&self, page: u32) -> usize {
        self.sizes.iter().take(page as usize - 1).sum()
    }

    fn items(&self, page: u32) -> Vec<u32> {
        let size = self.sizes.get(page as usize - 1).copied().unwrap_or(0);
        let offset = self.offset(page);
        (offset..offset + size).map(|i| i as u32).collect()
    }

    fn answer(&self, request: PaginatedRequest) -> Result<TurnedPage<u32>, FetchError> {
        assert_eq!(request.url, URL);
        assert_eq!(request.per_page, self.per_page as usize);
        if self.failing.contains(&request.page) {
            return Err(FetchError::HttpStatus(500));
        }
        let items = self.items(request.page);
        let pagination = Pagination {
            page: request.page,
            per_page: self.per_page,
            count: items.len() as u32,
            total_count: self.total_count,
            offset: self.offset(request.page) as u32,
        };
        Ok(turn_page(request, Page { pagination, items }))
    }

    fn all(&self, pages: u32) -> Vec<u32> {
        (1..=pages).flat_map(|p| self.items(p)).collect()
    }
}

/// What a run of the stream did.
#[derive(Debug, PartialEq)]
struct Run {
    items: Vec<u32>,
    error: Option<FetchError>,
    requested: Vec<u32>,
    answered: Vec<u32>,
    most_in_flight: usize,
}

/// Picks the page that answers next among those in flight.
enum Order {
    Oldest,
    Newest,
    Scrambled(u64),
}

impl Order {
    fn pick(&mut self, in_flight: usize) -> usize {
        match self {
            Order::Oldest => 0,
            Order::Newest => in_flight - 1,
            Order::Scrambled(seed) => {
                *seed = seed.wrapping_mul(6364136223846793005).wrapping_add(1442695040888963407);
                ((*seed >> 33) as usize) % in_flight
            }
        }
    }
}

fn run(server: &Server, plan: Plan, mut order: Order) -> Run {
    let mut stream: PageStream<u32> = PageStream::new(PaginatedRequest::new(URL.to_string()), plan);
    let mut result =
        Run { items: vec![], error: None, requested: vec![], answered: vec![], most_in_flight: 0 };
    let mut in_flight: Vec<PaginatedRequest> = stream.next_requests();
    result.requested.extend(in_flight.iter().map(|r| r.page));
    let mut closed_after: Option<usize> = None;
    while !stream.is_done() {
        assert!(!in_flight.is_empty(), "a stream that goes on has a page in flight");
        assert_eq!(stream.in_flight(), in_flight.len());
        assert!(in_flight.len() <= plan.window);
        result.most_in_flight = result.most_in_flight.max(in_flight.len());
        let request = in_flight.remove(order.pick(in_flight.len()));
        let page = request.page;
        let answer = server.answer(request);
        let ends = match &answer {
            Ok(turned) => turned.next_request.is_none(),
            Err(_) => true,
        };
        let step = stream.on_page(page, answer);
        result.answered.push(page);
        assert!(result.error.is_none(), "nothing follows an error");
        result.items.extend(step.items);
        result.error = step.error;
        if let Some(count) = closed_after {
            assert_eq!(result.requested.len(), count, "a closed stream requests nothing");
            assert!(step.requests.is_empty());
        }
        result.requested.extend(step.requests.iter().map(|r| r.page));
        if ends && closed_after.is_none() {
            assert!(step.requests.is_empty());
            closed_after = Some(result.requested.len());
        }
        for request in &step.requests {
            assert_eq!(request.url, URL);
        }
        in_flight.extend(step.requests);
        assert_eq!(step.done, stream.is_done());
        assert_eq!(stream.requested() as usize, result.requested.len());
        if step.done {
            break;
        }
        assert!(result.error.is_none());
    }
    let pages: Vec<u32> = (1..=result.requested.len() as u32).collect();
    assert_eq!(result.requested, pages, "pages are requested in ascending order, each once");
    result
}

fn orders() -> Vec<Order> {
    let mut orders = vec![Order::Oldest, Order::Newest];
    for seed in 0..40 {
        orders.push(Order::Scrambled(seed));
    }
    orders
}

#[test]
fn known_total_reads_every_page() {
    // per_page=50, total_count=120: pages [1,2,3] with [50,50,20] items
    let server = Server::of_total(120, 50);
    assert_eq!(server.sizes, vec![50, 50, 20]);
    let plan = Plan::probed(Some(120), 50, 8);
    assert_eq!(plan.max_pages, 3);
    assert_eq!(plan.limit, None);
    for order in orders() {
        let out = run(&server, plan, order);
        assert_eq!(out.requested, vec![1, 2, 3]);
        assert_eq!(out.items.len(), 120);
        assert_eq!(out.items, (0..120).collect::<Vec<u32>>());
        assert_eq!(out.error, None);
    }
}

#[test]
fn completeness_for_many_totals() {
    for per_page in [1usize, 2, 3, 7, 50] {
        for total in 0..=60usize {
            let server = Server::of_total(total, per_page as u32);
            let plan = Plan::probed(Some(total as u32), per_page, 4);
            for order in [Order::Oldest, Order::Newest, Order::Scrambled(total as u64)] {
                let out = run(&server, plan, order);
                let pages = (total + per_page - 1) / per_page;
                assert_eq!(out.requested.len(), pages, "total {total} per page {per_page}");
                assert_eq!(out.items, (0..total as u32).collect::<Vec<u32>>());
                assert_eq!(out.error, None);
            }
        }
    }
}

#[test]
fn empty_result_is_no_error() {
    let server = Server::of_total(0, 50);
    let plan = Plan::probed(Some(0), 50, 8);
    assert_eq!(plan.max_pages, 0);
    let mut stream: PageStream<u32> = PageStream::new(PaginatedRequest::new(URL.to_string()), plan);
    assert!(stream.is_done());
    assert!(stream.next_requests().is_empty());
    assert_eq!(stream.requested(), 0);
    let out = run(&server, plan, Order::Oldest);
    assert_eq!(out.requested, Vec::<u32>::new());
    assert_eq!(out.items, Vec::<u32>::new());
    assert_eq!(out.error, None);
}

#[test]
fn order_of_answers_does_not_matter() {
    let server = Server::of_total(1000, 50);
    let plan = Plan::probed(Some(1000), 50, 8);
    let canonical: Vec<u32> = (0..1000).collect();
    let mut answer_orders = std::collections::HashSet::new();
    for order in orders() {
        let out = run(&server, plan, order);
        assert_eq!(out.items, canonical);
        assert_eq!(out.error, None);
        assert_eq!(out.requested.len(), 20);
        assert_eq!(out.most_in_flight, 8);
        answer_orders.insert(out.answered);
    }
    assert!(answer_orders.len() > 30, "the orders differ");
}

#[test]
fn later_pages_wait_for_earlier_ones() {
    let server = Server::of_total(150, 50);
    let mut stream: PageStream<u32> =
        PageStream::new(PaginatedRequest::new(URL.to_string()), Plan::probed(Some(150), 50, 8));
    let requests = stream.next_requests();
    assert_eq!(requests.iter().map(|r| r.page).collect::<Vec<_>>(), vec![1, 2, 3]);
    let step = stream.on_page(3, server.answer(stream_request(3)));
    assert!(step.items.is_empty() && step.error.is_none() && !step.done);
    assert_eq!(stream.consumed(), 0);
    assert_eq!(stream.in_flight(), 2);
    let step = stream.on_page(2, server.answer(stream_request(2)));
    assert!(step.items.is_empty() && step.error.is_none() && !step.done);
    let step = stream.on_page(1, server.answer(stream_request(1)));
    assert_eq!(step.items, (0..150).collect::<Vec<u32>>());
    assert!(step.error.is_none());
    assert!(step.done);
    assert!(step.requests.is_empty());
    assert_eq!(stream.consumed(), 3);
    assert_eq!(stream.in_flight(), 0);
}

fn stream_request(page: u32) -> PaginatedRequest {
    PaginatedRequest::new(URL.to_string()).for_page(page)
}

#[test]
fn phases_are_passed_in_order() {
    let server = Server::of_total(150, 50);
    let mut stream: PageStream<u32> =
        PageStream::new(PaginatedRequest::new(URL.to_string()), Plan::probed(Some(150), 50, 2));
    assert_eq!(stream.phase(), Phase::NotStarted);
    assert_eq!(stream.next_requests().len(), 2);
    assert_eq!(stream.phase(), Phase::Fetching);
    // the answer makes room in the window for the last planned page
    let step = stream.on_page(2, server.answer(stream_request(2)));
    assert_eq!(step.requests.len(), 1);
    assert_eq!(stream.phase(), Phase::Draining);
    let step = stream.on_page(1, server.answer(stream_request(1)));
    assert!(step.requests.is_empty());
    assert_eq!(step.items.len(), 100);
    assert_eq!(stream.phase(), Phase::Draining);
    let step = stream.on_page(3, server.answer(stream_request(3)));
    assert!(step.done);
    assert_eq!(stream.phase(), Phase::Done);
    stream.on_page(3, server.answer(stream_request(3)));
    assert_eq!(stream.phase(), Phase::Done);

    let mut stream: PageStream<u32> =
        PageStream::new(PaginatedRequest::new(URL.to_string()), Plan::limited(0, 50, 2));
    assert_eq!(stream.phase(), Phase::Done);
    assert!(stream.next_requests().is_empty());
    assert_eq!(stream.phase(), Phase::Done);

    // an answer that ends the result turns fetching into draining
    let open = Server::of_sizes(&[50, 7], 50, None);
    let mut stream: PageStream<u32> =
        PageStream::new(PaginatedRequest::new(URL.to_string()), Plan::probed(None, 50, 2));
    stream.next_requests();
    assert_eq!(stream.phase(), Phase::Fetching);
    let step = stream.on_page(2, open.answer(stream_request(2)));
    assert!(step.requests.is_empty() && !step.done);
    assert_eq!(stream.phase(), Phase::Draining);
    let step = stream.on_page(1, open.answer(stream_request(1)));
    assert_eq!(step.items.len(), 57);
    assert_eq!(stream.phase(), Phase::Done);
}

#[test]
fn requests_ask_for_pages_of_the_plans_size() {
    let mut stream: PageStream<u32> =
        PageStream::new(PaginatedRequest::new(URL.to_string()), Plan::probed(Some(10), 3, 8));
    let requests = stream.next_requests();
    assert_eq!(requests.len(), 4);
    for (i, request) in requests.iter().enumerate() {
        assert_eq!(request.page as usize, i + 1);
        assert_eq!(request.per_page, 3);
        assert_eq!(
            request.page_url().unwrap(),
            format!("https://aoe4world.com/api/v0/games?limit=3&page={}", i + 1)
        );
    }
}

#[test]
fn short_page_ends_an_open_stream() {
    // per_page=50, no total_count, pages of [50,50,13] items
    let server = Server::of_sizes(&[50, 50, 13], 50, None);
    let plan = Plan::probed(None, 50, 1);
    assert_eq!(plan.max_pages, u32::MAX);
    let out = run(&server, plan, Order::Oldest);
    assert_eq!(out.requested, vec![1, 2, 3]);
    assert_eq!(out.items.len(), 113);
    assert_eq!(out.items, (0..113).collect::<Vec<u32>>());
    assert_eq!(out.error, None);
}

#[test]
fn short_page_ends_an_open_stream_with_lookahead() {
    let server = Server::of_sizes(&[50, 50, 13], 50, None);
    let plan = Plan::probed(None, 50, 8);
    for order in orders() {
        let out = run(&server, plan, order);
        // the pages of the first window are out before any answer is in;
        // whatever ends the result closes the stream
        assert!(out.requested.len() >= 8 && out.requested.len() <= 10, "{:?}", out.requested);
        assert_eq!(out.items, (0..113).collect::<Vec<u32>>());
        assert_eq!(out.error, None);
    }
    let out = run(&server, plan, Order::Oldest);
    assert_eq!(out.requested.len(), 10);
    assert_eq!(out.answered, vec![1, 2, 3]);
    let out = run(&server, plan, Order::Newest);
    assert_eq!(out.requested.len(), 8);
}

#[test]
fn short_page_below_a_reported_total_does_not_end_the_stream() {
    // a plan for 120 items; page 1 comes with 30 items and reports 120 in all
    let plan = Plan::probed(Some(120), 50, 1);
    let mut stream: PageStream<u32> = PageStream::new(PaginatedRequest::new(URL.to_string()), plan);
    assert_eq!(stream.next_requests().len(), 1);
    let pagination =
        Pagination { page: 1, per_page: 50, count: 30, total_count: Some(120), offset: 0 };
    let turned = turn_page(stream_request(1), Page { pagination, items: (0..30).collect() });
    assert_eq!(turned.next_request.as_ref().map(|r| r.page), Some(2));
    let step = stream.on_page(1, Ok(turned));
    assert_eq!(step.items, (0..30).collect::<Vec<u32>>());
    assert!(step.error.is_none());
    assert!(!step.done);
    assert_eq!(step.requests.iter().map(|r| r.page).collect::<Vec<_>>(), vec![2]);
    assert_eq!(stream.phase(), Phase::Fetching);
    // the same page without a total is the last
    let mut stream: PageStream<u32> =
        PageStream::new(PaginatedRequest::new(URL.to_string()), Plan::probed(None, 50, 1));
    assert_eq!(stream.next_requests().len(), 1);
    let pagination = Pagination { page: 1, per_page: 50, count: 30, total_count: None, offset: 0 };
    let turned = turn_page(stream_request(1), Page { pagination, items: (0..30).collect() });
    let step = stream.on_page(1, Ok(turned));
    assert_eq!(step.items.len(), 30);
    assert!(step.done && step.error.is_none() && step.requests.is_empty());
}

#[test]
fn stream_takes_the_end_from_the_answer_alone() {
    // a page with fewer items than the plan's pages hold goes on where its
    // answer names a next request
    let mut stream: PageStream<u32> =
        PageStream::new(PaginatedRequest::new(URL.to_string()), Plan::probed(None, 50, 1));
    stream.next_requests();
    let step = stream.on_page(1, Ok(TurnedPage::next(vec![1, 2, 3], stream_request(2))));
    assert_eq!(step.items, vec![1, 2, 3]);
    assert!(!step.done);
    assert_eq!(step.requests.len(), 1);
    // and a full page ends the stream where its answer names none
    let step = stream.on_page(2, Ok(TurnedPage::last((0..50).collect())));
    assert_eq!(step.items.len(), 50);
    assert!(step.done && step.error.is_none());
}

#[test]
fn empty_page_ends_an_open_stream() {
    let server = Server::of_sizes(&[50, 50], 50, None);
    let plan = Plan::probed(None, 50, 1);
    let out = run(&server, plan, Order::Oldest);
    assert_eq!(out.requested, vec![1, 2, 3]);
    assert_eq!(out.items, (0..100).collect::<Vec<u32>>());
    assert_eq!(out.error, None);
}

#[test]
fn errors_behind_the_end_are_ignored() {
    let server = Server::of_sizes(&[50, 50, 13], 50, None).failing(&[4, 5, 6, 7, 8]);
    let plan = Plan::probed(None, 50, 8);
    for order in orders() {
        let out = run(&server, plan, order);
        assert_eq!(out.items, (0..113).collect::<Vec<u32>>());
        assert_eq!(out.error, None);
    }
}

#[test]
fn limit_cuts_the_page() {
    // limit=10, per_page=50: one page, ten items even if the page holds 50
    let server = Server::of_total(500, 50);
    let plan = Plan::limited(10, 50, 8);
    assert_eq!(plan.max_pages, 1);
    assert_eq!(plan.limit, Some(10));
    for order in orders() {
        let out = run(&server, plan, order);
        assert_eq!(out.requested, vec![1]);
        assert_eq!(out.items, (0..10).collect::<Vec<u32>>());
        assert_eq!(out.error, None);
    }
}

#[test]
fn limit_is_enforced() {
    let total = 333usize;
    for per_page in [1usize, 7, 50] {
        let server = Server::of_total(total, per_page as u32);
        for limit in 0..total {
            let plan = Plan::limited(limit, per_page, 3);
            let out = run(&server, plan, Order::Scrambled(limit as u64));
            assert_eq!(out.items, (0..limit as u32).collect::<Vec<u32>>());
            assert_eq!(out.error, None);
            assert!(out.requested.len() <= (limit + per_page - 1) / per_page);
        }
    }
}

#[test]
fn limit_beyond_the_result_gives_what_there_is() {
    let server = Server::of_total(120, 50);
    let plan = Plan::limited(1000, 50, 8);
    assert_eq!(plan.max_pages, 20);
    for order in orders() {
        let out = run(&server, plan, order);
        assert_eq!(out.items, (0..120).collect::<Vec<u32>>());
        assert_eq!(out.error, None);
        assert!(out.requested.len() <= 20);
    }
}

#[test]
fn default_plan() {
    let plan = Plan::with_limit(100);
    assert_eq!(plan, Plan { per_page: 50, window: 8, max_pages: 2, limit: Some(100) });
    assert_eq!(Plan::with_limit(1).max_pages, 1);
    assert_eq!(Plan::with_limit(0).max_pages, 0);
    assert_eq!(Plan::with_limit(101).max_pages, 3);
    assert_eq!(Plan::with_limit(usize::MAX).max_pages, u32::MAX);
    assert_eq!(Plan::limited(usize::MAX, 1, 1).max_pages, u32::MAX);
    assert_eq!(Plan::probed(Some(u32::MAX), 1, 1).max_pages, u32::MAX);
    assert_eq!(Plan::probed(Some(u32::MAX), 2, 1).max_pages, u32::MAX / 2 + 1);
    let server = Server::of_total(5000, 50);
    let out = run(&server, Plan::with_limit(100), Order::Newest);
    assert_eq!(out.requested, vec![1, 2]);
    assert_eq!(out.items.len(), 100);
    let out = run(&server, Plan::with_limit(1), Order::Newest);
    assert_eq!(out.items, vec![0]);
    let out = run(&server, Plan::with_limit(0), Order::Newest);
    assert_eq!(out.items, Vec::<u32>::new());
    assert_eq!(out.requested, Vec::<u32>::new());
}

#[test]
fn error_short_circuits() {
    // page 3 of 5 fails with an HTTP 500
    let server = Server::of_total(250, 50).failing(&[3]);
    let plan = Plan::probed(Some(250), 50, 8);
    assert_eq!(plan.max_pages, 5);
    for order in orders() {
        let out = run(&server, plan, order);
        assert_eq!(out.items, (0..100).collect::<Vec<u32>>());
        assert_eq!(out.error, Some(FetchError::HttpStatus(500)));
        assert_eq!(out.requested, vec![1, 2, 3, 4, 5]);
    }
}

#[test]
fn first_error_in_page_order_wins() {
    let server = Server::of_total(250, 50).failing(&[2, 4]);
    let plan = Plan::probed(Some(250), 50, 8);
    for order in orders() {
        let out = run(&server, plan, order);
        assert_eq!(out.items, (0..50).collect::<Vec<u32>>());
        assert_eq!(out.error, Some(FetchError::HttpStatus(500)));
    }
    let server = Server::of_total(250, 50).failing(&[1]);
    let out = run(&server, plan, Order::Newest);
    assert_eq!(out.items, Vec::<u32>::new());
    assert_eq!(out.error, Some(FetchError::HttpStatus(500)));
}

#[test]
fn error_stops_scheduling() {
    let server = Server::of_total(5000, 50).failing(&[2]);
    let plan = Plan::probed(Some(5000), 50, 4);
    let out = run(&server, plan, Order::Oldest);
    assert_eq!(out.requested, vec![1, 2, 3, 4, 5]);
    assert_eq!(out.answered, vec![1, 2]);
    assert_eq!(out.error, Some(FetchError::HttpStatus(500)));
    assert_eq!(out.items, (0..50).collect::<Vec<u32>>());
    // where the failing page answers last, every planned page is asked for
    // before it closes the stream; the output is the same
    let out = run(&server, plan, Order::Newest);
    assert_eq!(out.requested.len(), 100);
    assert_eq!(out.error, Some(FetchError::HttpStatus(500)));
    assert_eq!(out.items, (0..50).collect::<Vec<u32>>());
    for seed in 0..20 {
        let out = run(&server, plan, Order::Scrambled(seed));
        assert!(out.requested.len() < 100);
        assert_eq!(out.error, Some(FetchError::HttpStatus(500)));
        assert_eq!(out.items, (0..50).collect::<Vec<u32>>());
    }
}

#[test]
fn limit_reached_before_an_error_hides_it() {
    let server = Server::of_total(250, 50).failing(&[3]);
    for order in orders() {
        let out = run(&server, Plan::limited(100, 50, 8), order);
        assert_eq!(out.items.len(), 100);
        assert_eq!(out.error, None);
    }
    let out = run(&server, Plan::limited(101, 50, 8), Order::Oldest);
    assert_eq!(out.items.len(), 100);
    assert_eq!(out.error, Some(FetchError::HttpStatus(500)));
}

#[test]
fn transport_and_decode_errors_end_the_stream_alike() {
    let mut stream: PageStream<u32> =
        PageStream::new(PaginatedRequest::new(URL.to_string()), Plan::probed(Some(100), 50, 8));
    assert_eq!(stream.next_requests().len(), 2);
    let step = stream.on_page(2, Err(FetchError::Decode("expected value".to_string())));
    assert!(!step.done && step.error.is_none());
    let step = stream.on_page(1, Err(FetchError::Transport("timed out".to_string())));
    assert!(step.done);
    assert!(step.items.is_empty());
    assert_eq!(step.error, Some(FetchError::Transport("timed out".to_string())));

    let mut stream: PageStream<u32> =
        PageStream::new(PaginatedRequest::new(URL.to_string()), Plan::probed(None, 50, 8));
    assert_eq!(stream.next_requests().len(), 8);
    let step = stream.on_page(1, Err(FetchError::Url(UrlError::TooLong)));
    assert!(step.done && step.items.is_empty() && step.requests.is_empty());
    assert_eq!(step.error, Some(FetchError::Url(UrlError::TooLong)));
}

#[test]
fn answers_that_are_not_awaited_are_ignored() {
    let server = Server::of_total(150, 50);
    let mut stream: PageStream<u32> =
        PageStream::new(PaginatedRequest::new(URL.to_string()), Plan::probed(Some(150), 50, 2));
    // nothing is in flight before the first requests
    let step = stream.on_page(1, server.answer(stream_request(1)));
    assert!(step.items.is_empty() && !step.done);
    assert_eq!(step.requests.iter().map(|r| r.page).collect::<Vec<_>>(), vec![1, 2]);
    // page 0 and a page that was not requested
    let step = stream.on_page(0, server.answer(stream_request(1)));
    assert!(step.items.is_empty() && step.requests.is_empty() && !step.done);
    let step = stream.on_page(3, server.answer(stream_request(3)));
    assert!(step.items.is_empty() && step.requests.is_empty() && !step.done);
    let step = stream.on_page(1, server.answer(stream_request(1)));
    assert_eq!(step.items, (0..50).collect::<Vec<u32>>());
    assert_eq!(step.requests.iter().map(|r| r.page).collect::<Vec<_>>(), vec![3]);
    // a second answer for the same page
    let step = stream.on_page(1, Err(FetchError::HttpStatus(500)));
    assert!(step.items.is_empty() && step.error.is_none() && !step.done);
    let step = stream.on_page(2, server.answer(stream_request(2)));
    assert_eq!(step.items, (50..100).collect::<Vec<u32>>());
    let step = stream.on_page(3, server.answer(stream_request(3)));
    assert_eq!(step.items, (100..150).collect::<Vec<u32>>());
    assert!(step.done);
    // after the end
    let step = stream.on_page(3, Err(FetchError::HttpStatus(500)));
    assert!(step.items.is_empty() && step.error.is_none() && step.done);
    assert!(stream.next_requests().is_empty());
}

#[test]
fn window_bounds_the_fetches() {
    let server = Server::of_total(2000, 50);
    for window in [1usize, 2, 3, 8, 64] {
        let plan = Plan::probed(Some(2000), 50, window);
        for order in [Order::Oldest, Order::Newest, Order::Scrambled(window as u64)] {
            let out = run(&server, plan, order);
            assert_eq!(out.most_in_flight, window.min(40));
            assert_eq!(out.requested.len(), 40);
            assert_eq!(out.items.len(), 2000);
        }
    }
}

#[test]
fn full_last_page_of_a_known_total_ends_the_stream() {
    // 100 items in pages of 50: page 2 is full and the last
    let server = Server::of_total(100, 50);
    let out = run(&server, Plan::probed(None, 50, 1), Order::Oldest);
    assert_eq!(out.requested, vec![1, 2]);
    assert_eq!(out.items.len(), 100);
    assert_eq!(out.error, None);
}
