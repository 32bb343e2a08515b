//! The page stream: from the pages of a list endpoint to one ordered
//! sequence of items.
//!
//! The stream decides; it performs nothing. It names the pages to request,
//! takes each answer as it arrives, in whatever order, and hands the items
//! out in ascending page order, each page's items in the server's order. At
//! most [`Plan::window`] pages are in flight at any time. An answer that
//! arrives before its turn waits in the stream until every page before it
//! has been handed out.
//!
//! The stream ends after the first page, in page order, that
//! - could not be read: its error is handed out after the items of the pages
//!   before it, and nothing follows;
//! - is the last of the result: its answer names no next page, as
//!   [`turn_page`](crate::pagination::turn_page) decides from the page's
//!   record (the reported total is reached, or no total is reported and the
//!   page is short or empty);
//! - is the last planned page; or
//! - fills the caller's item limit: the items beyond the limit are dropped.
//!
//! As soon as an answer shows that the result ends, no further page is
//! requested. Answers of pages behind the end are ignored, errors included.
//!
//! How many pages there are to read is settled before the stream starts, by
//! its [`Plan`]. The queries of this library plan from the caller's item
//! limit ([`Plan::with_limit`]); a plan can as well be made from the total
//! that a probe request reported ([`Plan::probed`]).
//!
//! [`State`] is the stream as a mathematical value and [`State::stepped`]
//! its transition function; [`PageStream`] is the executable stream, whose
//! every operation is stated as the transition that it performs.

use vstd::prelude::*;

use crate::error::FetchError;
use crate::pagination::pages_for;
use crate::pagination::pages_needed;
use crate::pagination::PaginatedRequest;
use crate::pagination::TurnedPage;
use crate::pagination::DEFAULT_COUNT_PER_PAGE;
use crate::pagination::DEFAULT_PAGES_CONCURRENCY;

verus! {

/// How much to read: the page size, the width of the fetch window, the
/// number of the last page that may be requested, and the caller's item limit.
#[derive(Debug, Clone, Copy, PartialEq, Eq)]
pub struct Plan {
    /// Number of items that a full page holds; positive.
    pub per_page: usize,
    /// Largest number of pages in flight at once; positive.
    pub window: usize,
    /// Number of the last page that may be requested: 0 plans no page, and
    /// `u32::MAX` leaves the plan open.
    pub max_pages: u32,
    /// Largest number of items to hand out, where the caller set one.
    pub limit: Option<usize>,
}

/// The number of pages that hold `items` items, as far as page numbers go.
pub open spec fn planned_pages(items: int, per_page: int) -> int {
    if pages_for(items, per_page) > u32::MAX {
        u32::MAX as int
    } else {
        pages_for(items, per_page)
    }
}

/// No more pages are needed than there are items.
proof fn lemma_pages_within(items: int, per_page: int)
    requires
        items >= 0,
        per_page > 0,
    ensures
        0 <= pages_for(items, per_page) <= items,
{
    assert(0 <= items / per_page <= items && (items % per_page != 0 ==> items / per_page < items))
        by (nonlinear_arith)
        requires
            items >= 0,
            per_page > 0,
    ;
}

fn page_count(items: usize, per_page: usize) -> (pages: u32)
    requires
        per_page > 0,
    ensures
        pages == planned_pages(items as int, per_page as int),
{
    let pages = pages_needed(items, per_page);
    if pages > u32::MAX as usize {
        u32::MAX
    } else {
        pages as u32
    }
}

impl Plan {
    /// Whether the plan can be carried out: a page holds items and the
    /// window admits a fetch.
    pub open spec fn valid(self) -> bool {
        self.per_page > 0 && self.window > 0
    }

    /// The plan for a caller who wants at most `limit` items: as many pages
    /// as hold `limit` items, and no item beyond the limit. No request is
    /// spent on learning how many items there are, so less than `limit`
    /// items come where the result is smaller.
    pub fn limited(limit: usize, per_page: usize, window: usize) -> (plan: Self)
        requires
            per_page > 0,
            window > 0,
        ensures
            plan == (Plan {
                per_page,
                window,
                max_pages: planned_pages(limit as int, per_page as int) as u32,
                limit: Some(limit),
            }),
    {
        Plan { per_page, window, max_pages: page_count(limit, per_page), limit: Some(limit) }
    }

    /// The plan after a probe request has told how many items the result
    /// has: `ceil(total / per_page)` pages, which hold them all. Where the
    /// server reported no total, the plan is open: pages are read until one
    /// ends the result.
    pub fn probed(total_count: Option<u32>, per_page: usize, window: usize) -> (plan: Self)
        requires
            per_page > 0,
            window > 0,
        ensures
            plan == (Plan {
                per_page,
                window,
                max_pages: match total_count {
                    Some(total) => pages_for(total as int, per_page as int) as u32,
                    None => u32::MAX,
                },
                limit: None,
            }),
    {
        let max_pages = match total_count {
            Some(total) => {
                proof {
                    lemma_pages_within(total as int, per_page as int);
                }
                page_count(total as usize, per_page)
            },
            None => u32::MAX,
        };
        Plan { per_page, window, max_pages, limit: None }
    }

    /// The plan that the queries use: [`Plan::limited`] with pages of
    /// [`DEFAULT_COUNT_PER_PAGE`] items and [`DEFAULT_PAGES_CONCURRENCY`]
    /// pages in flight.
    pub fn with_limit(limit: usize) -> (plan: Self)
        ensures
            plan == (Plan {
                per_page: DEFAULT_COUNT_PER_PAGE,
                window: DEFAULT_PAGES_CONCURRENCY,
                max_pages: planned_pages(limit as int, DEFAULT_COUNT_PER_PAGE as int) as u32,
                limit: Some(limit),
            }),
    {
        Plan::limited(limit, DEFAULT_COUNT_PER_PAGE, DEFAULT_PAGES_CONCURRENCY)
    }
}

/// What came back for one page.
pub enum Answer<T> {
    /// The page was read. `last` says that the result ends with it.
    Page { items: Seq<T>, last: bool },
    /// The page could not be read.
    Failed { error: FetchError },
}

impl<T> Answer<T> {
    /// Whether the stream ends with this page.
    pub open spec fn ends(self) -> bool {
        match self {
            Answer::Page { last, .. } => last,
            Answer::Failed { .. } => true,
        }
    }

    /// The items of the page; none where it could not be read.
    pub open spec fn items(self) -> Seq<T> {
        match self {
            Answer::Page { items, .. } => items,
            Answer::Failed { .. } => Seq::empty(),
        }
    }

    /// The error of the page, where it could not be read.
    pub open spec fn error(self) -> Option<FetchError> {
        match self {
            Answer::Page { .. } => None,
            Answer::Failed { error } => Some(error),
        }
    }
}

/// What the stream hands out: items, and after them the error that ends
/// the stream, if one does.
pub struct Emission<T> {
    /// The items, in the order in which they are handed out.
    pub items: Seq<T>,
    /// The error that follows the items and ends the stream.
    pub error: Option<FetchError>,
}

impl<T> Emission<T> {
    /// Nothing.
    pub open spec fn nothing() -> Self {
        Emission { items: Seq::empty(), error: None }
    }

    /// This emission followed by `next`.
    pub open spec fn followed_by(self, next: Self) -> Self {
        Emission {
            items: self.items + next.items,
            error: if self.error is Some {
                self.error
            } else {
                next.error
            },
        }
    }
}

/// The part of `items` for which there is room.
pub open spec fn fitting<T>(room: Option<nat>, items: Seq<T>) -> Seq<T> {
    match room {
        Some(room) => if items.len() > room {
            items.take(room as int)
        } else {
            items
        },
        None => items,
    }
}

/// The room that is left after `taken` items have been handed out.
pub open spec fn room_after(room: Option<nat>, taken: nat) -> Option<nat> {
    match room {
        Some(room) => Some((room - taken) as nat),
        None => None,
    }
}

/// Number of slots that wait for their answer.
pub open spec fn waiting<T>(slots: Seq<Option<Answer<T>>>) -> nat
    decreases slots.len(),
{
    if slots.len() == 0 {
        0
    } else {
        waiting(slots.drop_last()) + if slots.last() is None {
            1nat
        } else {
            0nat
        }
    }
}

/// Where a stream stands. A stream only moves forward through the phases.
///
/// Planning comes before the stream: the caller makes the [`Plan`], from
/// an item limit or from the total that a probe request reported.
#[derive(Debug, Clone, Copy, PartialEq, Eq, Structural)]
pub enum Phase {
    /// Nothing has been requested.
    NotStarted,
    /// Pages are in flight, and more will be requested as they arrive.
    Fetching,
    /// The last pages are in flight: nothing more will be requested.
    Draining,
    /// The stream has ended.
    Done,
}

impl Phase {
    /// The place of the phase in the order of the phases.
    pub open spec fn rank(self) -> nat {
        match self {
            Phase::NotStarted => 0,
            Phase::Fetching => 1,
            Phase::Draining => 2,
            Phase::Done => 3,
        }
    }
}

/// The stream as a mathematical value.
pub struct State<T> {
    /// The plan that the stream carries out.
    pub plan: Plan,
    /// Pages `1..=requested` have been requested.
    pub requested: nat,
    /// Pages `1..=consumed` have been handed out.
    pub consumed: nat,
    /// One slot for each of the pages `consumed + 1..=requested`, in page
    /// order: `None` while the page is in flight, then its answer.
    pub slots: Seq<Option<Answer<T>>>,
    /// Number of items that may still be handed out, under an item limit.
    pub room: Option<nat>,
    /// An answer has shown that the result ends: nothing more is requested.
    pub closed: bool,
    /// The stream has ended.
    pub done: bool,
}

impl<T> State<T> {
    /// What holds of every state that the stream reaches.
    pub open spec fn wf(self) -> bool {
        &&& self.plan.valid()
        &&& self.consumed + self.slots.len() == self.requested
        &&& self.requested <= self.plan.max_pages
        &&& !self.done ==> self.consumed < self.plan.max_pages && self.room != Some(0nat)
    }

    /// The stream before anything was requested. It has ended already where
    /// the plan holds no page or admits no item.
    pub open spec fn initial(plan: Plan) -> Self {
        State {
            plan,
            requested: 0,
            consumed: 0,
            slots: Seq::empty(),
            room: match plan.limit {
                Some(limit) => Some(limit as nat),
                None => None,
            },
            closed: false,
            done: plan.max_pages == 0 || plan.limit == Some(0usize),
        }
    }

    /// Number of pages in flight.
    pub open spec fn flying(self) -> nat {
        waiting(self.slots)
    }

    /// The phase of the stream.
    pub open spec fn phase(self) -> Phase {
        if self.done {
            Phase::Done
        } else if self.requested == 0 {
            Phase::NotStarted
        } else if self.closed || self.requested >= self.plan.max_pages {
            Phase::Draining
        } else {
            Phase::Fetching
        }
    }

    /// Whether `page` is in flight: requested, not answered, and the stream
    /// goes on.
    pub open spec fn in_flight(self, page: nat) -> bool {
        &&& !self.done
        &&& self.consumed < page <= self.requested
        &&& self.slots[page - self.consumed - 1] is None
    }

    /// Whether the page that is due, the next to be handed out, is in flight.
    pub open spec fn due_in_flight(self) -> bool {
        self.in_flight(self.consumed + 1)
    }

    /// Number of pages to request now: none once the stream is closed or
    /// has ended, else as many as the window and the plan leave room for.
    pub open spec fn capacity(self) -> nat {
        if self.done || self.closed || self.flying() >= self.plan.window {
            0
        } else if self.plan.window - self.flying() <= self.plan.max_pages - self.requested {
            (self.plan.window - self.flying()) as nat
        } else {
            (self.plan.max_pages - self.requested) as nat
        }
    }

    /// The stream after the pages `requested + 1..=requested + capacity()`
    /// have been requested.
    pub open spec fn scheduled(self) -> Self {
        State {
            requested: self.requested + self.capacity(),
            slots: self.slots + Seq::new(self.capacity(), |i: int| None::<Answer<T>>),
            ..self
        }
    }

    /// The stream after `answer` came back for `page`. An answer for a page
    /// that is not in flight changes nothing.
    pub open spec fn accepted(self, page: nat, answer: Answer<T>) -> Self {
        if self.in_flight(page) {
            State {
                slots: self.slots.update(page - self.consumed - 1, Some(answer)),
                closed: self.closed || answer.ends(),
                ..self
            }
        } else {
            self
        }
    }

    /// Whether the page that is due can be handed out.
    pub open spec fn ready(self) -> bool {
        !self.done && self.slots.len() > 0 && self.slots[0] is Some
    }

    /// The stream after the page that is due has been handed out, and what
    /// was handed out: the page's items as far as there is room, or its error.
    pub open spec fn consumed_one(self) -> (Self, Emission<T>) {
        let answer = self.slots[0]->Some_0;
        let items = fitting(self.room, answer.items());
        let room = room_after(self.room, items.len());
        (
            State {
                consumed: self.consumed + 1,
                slots: self.slots.drop_first(),
                room,
                done: answer.ends() || room == Some(0nat) || self.consumed + 1
                    >= self.plan.max_pages,
                ..self
            },
            Emission { items, error: answer.error() },
        )
    }

    /// The stream after every page that is due and has its answer has been
    /// handed out, and what was handed out.
    pub open spec fn drained(self) -> (Self, Emission<T>)
        decreases self.slots.len(),
    {
        if self.ready() {
            let (next, first) = self.consumed_one();
            let (last, rest) = next.drained();
            (last, first.followed_by(rest))
        } else {
            (self, Emission::nothing())
        }
    }

    /// One step of the stream: `answer` came back for `page`. The stream
    /// takes the answer, hands out what is due, and requests what the window
    /// now admits.
    pub open spec fn stepped(self, page: nat, answer: Answer<T>) -> (Self, Emission<T>) {
        let (drained, emission) = self.accepted(page, answer).drained();
        (drained.scheduled(), emission)
    }
}

/// The answer that the stream takes from what a fetch returned: a page is
/// the last of the result where it names no next request.
pub open spec fn answer_of<T>(fetched: Result<TurnedPage<T>, FetchError>) -> Answer<T> {
    match fetched {
        Ok(turned) => Answer::Page { items: turned.items@, last: turned.next_request is None },
        Err(error) => Answer::Failed { error },
    }
}

/// Whether `requests` are the requests for the `count` pages after page
/// `after` of the query at `url`, in page order and in pages of `per_page`
/// items. Such requests are well-formed where `per_page` is positive.
pub open spec fn requests_for(
    requests: Seq<PaginatedRequest>,
    url: Seq<char>,
    per_page: usize,
    after: nat,
    count: nat,
) -> bool {
    &&& requests.len() == count
    &&& forall|i: int|
        0 <= i < count ==> {
            &&& (#[trigger] requests[i]).url@ == url
            &&& requests[i].per_page == per_page
            &&& requests[i].page == after + 1 + i
        }
}

/// The place of one requested page in the stream.
enum Slot<T> {
    /// The page is in flight.
    Waiting,
    /// The page was read.
    Page { items: Vec<T>, last: bool },
    /// The page could not be read.
    Failed { error: FetchError },
}

impl<T> Slot<T> {
    /// The slot as a mathematical value.
    spec fn model(self) -> Option<Answer<T>> {
        match self {
            Slot::Waiting => None,
            Slot::Page { items, last } => Some(Answer::Page { items: items@, last }),
            Slot::Failed { error } => Some(Answer::Failed { error }),
        }
    }

    fn is_waiting(&self) -> (yes: bool)
        ensures
            yes == (self.model() is None),
    {
        match self {
            Slot::Waiting => true,
            _ => false,
        }
    }
}

/// The slots as mathematical values.
spec fn slot_models<T>(slots: Seq<Slot<T>>) -> Seq<Option<Answer<T>>> {
    slots.map_values(|slot: Slot<T>| slot.model())
}

/// What one step of the stream tells its caller to do.
pub struct Step<T> {
    /// Items to hand to the consumer, in order.
    pub items: Vec<T>,
    /// The error to hand to the consumer after the items; it ends the stream.
    pub error: Option<FetchError>,
    /// Requests to send now.
    pub requests: Vec<PaginatedRequest>,
    /// Whether the stream has ended. Pages still in flight are abandoned.
    pub done: bool,
}

impl<T> Step<T> {
    /// What this step hands out.
    pub open spec fn emission(self) -> Emission<T> {
        Emission { items: self.items@, error: self.error }
    }
}

/// The executable page stream.
pub struct PageStream<T> {
    first: PaginatedRequest,
    plan: Plan,
    requested: u32,
    consumed: u32,
    slots: Vec<Slot<T>>,
    room: Option<usize>,
    closed: bool,
    done: bool,
}

proof fn lemma_waiting_push<T>(slots: Seq<Option<Answer<T>>>, slot: Option<Answer<T>>)
    ensures
        waiting(slots.push(slot)) == waiting(slots) + if slot is None {
            1nat
        } else {
            0nat
        },
{
    assert(slots.push(slot).drop_last() =~= slots);
}

impl<T> View for PageStream<T> {
    type V = State<T>;

    closed spec fn view(&self) -> State<T> {
        State {
            plan: self.plan,
            requested: self.requested as nat,
            consumed: self.consumed as nat,
            slots: slot_models(self.slots@),
            room: match self.room {
                Some(room) => Some(room as nat),
                None => None,
            },
            closed: self.closed,
            done: self.done,
        }
    }
}

impl<T> PageStream<T> {
    /// The URL of the query that the stream reads.
    pub closed spec fn url(&self) -> Seq<char> {
        self.first.url@
    }

    /// What holds of every stream between its operations: its state is
    /// well-formed, and it asks for pages of the plan's size.
    pub closed spec fn wf(&self) -> bool {
        self@.wf() && self.first.per_page == self.plan.per_page
    }

    /// A stream that reads the query of `first` as `plan` says, in pages of
    /// the plan's size. Nothing is requested yet:
    /// [`PageStream::next_requests`] names the first requests.
    pub fn new(first: PaginatedRequest, plan: Plan) -> (stream: Self)
        requires
            plan.valid(),
        ensures
            stream@ == State::<T>::initial(plan),
            stream.wf(),
            stream@.wf(),
            stream.url() == first.url@,
    {
        let first = first.with_per_page(plan.per_page);
        let done = plan.max_pages == 0 || match plan.limit {
            Some(limit) => limit == 0,
            None => false,
        };
        let stream = PageStream {
            first,
            plan,
            requested: 0,
            consumed: 0,
            slots: Vec::new(),
            room: plan.limit,
            closed: false,
            done,
        };
        assert(stream@.slots =~= Seq::empty());
        stream
    }

    /// Whether the stream has ended.
    pub fn is_done(&self) -> (done: bool)
        ensures
            done == self@.done,
    {
        self.done
    }

    /// The phase of the stream.
    pub fn phase(&self) -> (phase: Phase)
        ensures
            phase == self@.phase(),
    {
        if self.done {
            Phase::Done
        } else if self.requested == 0 {
            Phase::NotStarted
        } else if self.closed || self.requested >= self.plan.max_pages {
            Phase::Draining
        } else {
            Phase::Fetching
        }
    }

    /// Number of the last page that has been requested; 0 before the first.
    pub fn requested(&self) -> (pages: u32)
        ensures
            pages == self@.requested,
    {
        self.requested
    }

    /// Number of pages that have been handed out.
    pub fn consumed(&self) -> (pages: u32)
        ensures
            pages == self@.consumed,
    {
        self.consumed
    }

    /// Number of pages in flight.
    pub fn in_flight(&self) -> (pages: usize)
        ensures
            pages == self@.flying(),
    {
        let mut count: usize = 0;
        let mut i: usize = 0;
        let ghost models = slot_models(self.slots@);
        assert(models.take(0) =~= Seq::empty());
        while i < self.slots.len()
            invariant
                0 <= i <= self.slots.len(),
                models == slot_models(self.slots@),
                count == waiting(models.take(i as int)),
                count <= i,
            decreases self.slots.len() - i,
        {
            proof {
                assert(models.take(i + 1) =~= models.take(i as int).push(models[i as int]));
                lemma_waiting_push(models.take(i as int), models[i as int]);
            }
            if self.slots[i].is_waiting() {
                count = count + 1;
            }
            i = i + 1;
        }
        assert(models.take(i as int) =~= models);
        count
    }

    /// Names the pages to request now and counts them as in flight: as many
    /// as the window and the plan admit, none once the stream is closed or
    /// has ended. Each request is made from the first by value.
    pub fn next_requests(&mut self) -> (requests: Vec<PaginatedRequest>)
        requires
            old(self).wf(),
        ensures
            final(self)@ == old(self)@.scheduled(),
            final(self).wf(),
            final(self)@.wf(),
            final(self).url() == old(self).url(),
            requests_for(
                requests@,
                old(self).url(),
                old(self)@.plan.per_page,
                old(self)@.requested,
                old(self)@.capacity(),
            ),
    {
        let mut requests: Vec<PaginatedRequest> = Vec::new();
        let flying = self.in_flight();
        let count: usize = if self.done || self.closed || flying >= self.plan.window {
            0
        } else {
            let by_window: usize = self.plan.window - flying;
            let by_plan: u32 = self.plan.max_pages - self.requested;
            if by_window <= by_plan as usize {
                by_window
            } else {
                by_plan as usize
            }
        };
        assert(count == old(self)@.capacity());
        let ghost before = self@;
        let mut issued: usize = 0;
        assert(before.slots + Seq::new(0, |i: int| None::<Answer<T>>) =~= before.slots);
        while issued < count
            invariant
                0 <= issued <= count,
                before == old(self)@,
                before.wf(),
                self.first.per_page == self.plan.per_page,
                count == before.capacity(),
                self.first == old(self).first,
                self@ == (State {
                    requested: (before.requested + issued) as nat,
                    slots: before.slots + Seq::new(issued as nat, |i: int| None::<Answer<T>>),
                    ..before
                }),
                requests_for(
                    requests@,
                    self.first.url@,
                    self.first.per_page,
                    before.requested,
                    issued as nat,
                ),
            decreases count - issued,
        {
            let ghost models = slot_models(self.slots@);
            self.requested = self.requested + 1;
            self.slots.push(Slot::Waiting);
            requests.push(self.first.for_page(self.requested));
            issued = issued + 1;
            proof {
                assert(slot_models(self.slots@) =~= models.push(None));
                assert(models.push(None) =~= before.slots + Seq::new(
                    issued as nat,
                    |i: int| None::<Answer<T>>,
                ));
            }
        }
        requests
    }

    /// Takes what a fetch of `page` returned. Nothing changes where `page`
    /// is not in flight.
    fn accept(&mut self, page: u32, fetched: Result<TurnedPage<T>, FetchError>)
        requires
            old(self).wf(),
        ensures
            final(self)@ == old(self)@.accepted(
                page as nat,
                answer_of(fetched),
            ),
            final(self).wf(),
            final(self).url() == old(self).url(),
    {
        if self.done || page <= self.consumed || page > self.requested {
            return ;
        }
        let index: usize = (page - self.consumed - 1) as usize;
        if !self.slots[index].is_waiting() {
            return ;
        }
        let ghost models = slot_models(self.slots@);
        let ghost answer = answer_of(fetched);
        let slot = match fetched {
            Ok(turned) => {
                let last = turned.next_request.is_none();
                Slot::Page { items: turned.items, last }
            },
            Err(error) => Slot::Failed { error },
        };
        let ends = match &slot {
            Slot::Page { last, .. } => *last,
            _ => true,
        };
        assert(slot.model() == Some(answer));
        self.slots.set(index, slot);
        self.closed = self.closed || ends;
        assert(slot_models(self.slots@) =~= models.update(index as int, Some(answer)));
    }

    /// Hands out every page that is due and has its answer.
    fn drain(&mut self) -> (out: (Vec<T>, Option<FetchError>))
        requires
            old(self).wf(),
        ensures
            final(self)@ == old(self)@.drained().0,
            final(self)@.plan == old(self)@.plan,
            final(self)@.requested == old(self)@.requested,
            (Emission { items: out.0@, error: out.1 }) == old(self)@.drained().1,
            final(self).wf(),
            final(self).url() == old(self).url(),
    {
        let mut items_out: Vec<T> = Vec::new();
        let mut error_out: Option<FetchError> = None;
        let ghost start = self@;
        assert(Emission::<T>::nothing().followed_by(start.drained().1) =~= start.drained().1) by {
            assert(Seq::<T>::empty() + start.drained().1.items =~= start.drained().1.items);
        }
        while !self.done && self.slots.len() > 0 && !self.slots[0].is_waiting()
            invariant
                start == old(self)@,
                self.first == old(self).first,
                self.plan == old(self).plan,
                self.requested == old(self).requested,
                self.wf(),
                error_out is Some ==> self.done,
                start.drained().0 == self@.drained().0,
                start.drained().1 == (Emission { items: items_out@, error: error_out }).followed_by(
                    self@.drained().1,
                ),
            decreases self.slots.len(),
        {
            let ghost here = self@;
            let ghost acc = Emission { items: items_out@, error: error_out };
            assert(here.ready());
            let ghost models = slot_models(self.slots@);
            let slot = self.slots.remove(0);
            assert(slot_models(self.slots@) =~= models.drop_first());
            assert(slot.model() == models[0]);
            match slot {
                Slot::Page { items, last } => {
                    let mut items = items;
                    let ghost all = items@;
                    match self.room {
                        Some(room) => {
                            if items.len() > room {
                                items.truncate(room);
                            }
                            self.room = Some(room - items.len());
                        },
                        None => {},
                    }
                    assert(items@ =~= fitting(here.room, all));
                    items_out.append(&mut items);
                    self.consumed = self.consumed + 1;
                    let full = match self.room {
                        Some(room) => room == 0,
                        None => false,
                    };
                    self.done = last || full || self.consumed >= self.plan.max_pages;
                },
                Slot::Failed { error } => {
                    error_out = Some(error);
                    self.consumed = self.consumed + 1;
                    self.done = true;
                },
                Slot::Waiting => {
                    assert(false);
                },
            }
            proof {
                let (next, first) = here.consumed_one();
                assert(self@ == next);
                let now = Emission { items: items_out@, error: error_out };
                assert(now == acc.followed_by(first)) by {
                    assert(now.items =~= acc.items + first.items);
                }
                let rest = next.drained().1;
                assert(acc.followed_by(first.followed_by(rest)) == now.followed_by(rest)) by {
                    assert(acc.items + (first.items + rest.items) =~= (acc.items + first.items)
                        + rest.items);
                }
            }
        }
        proof {
            let acc = Emission { items: items_out@, error: error_out };
            assert(!self@.ready());
            assert(acc.followed_by(Emission::nothing()) == acc) by {
                assert(acc.items + Seq::<T>::empty() =~= acc.items);
            }
        }
        (items_out, error_out)
    }

    /// One step of the stream: `fetched` is what the fetch of `page`
    /// returned. The stream takes the answer, hands out what is now due, in
    /// page order, and names the requests that the window now admits.
    ///
    /// An answer for a page that is not in flight (never requested, answered
    /// before, or arriving after the stream has ended) is ignored.
    pub fn on_page(&mut self, page: u32, fetched: Result<TurnedPage<T>, FetchError>) -> (step: Step<
        T,
    >)
        requires
            old(self).wf(),
        ensures
            final(self)@ == old(self)@.stepped(
                page as nat,
                answer_of(fetched),
            ).0,
            step.emission() == old(self)@.stepped(
                page as nat,
                answer_of(fetched),
            ).1,
            step.done == final(self)@.done,
            requests_for(
                step.requests@,
                old(self).url(),
                old(self)@.plan.per_page,
                old(self)@.requested,
                (final(self)@.requested - old(self)@.requested) as nat,
            ),
            final(self).wf(),
            final(self)@.wf(),
            final(self).url() == old(self).url(),
    {
        self.accept(page, fetched);
        let (items, error) = self.drain();
        let requests = self.next_requests();
        Step { items, error, requests, done: self.done }
    }
}

} // verus!
