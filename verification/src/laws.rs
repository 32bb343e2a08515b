//! What holds of every run of the page stream.
//!
//! A server is a function from page numbers to answers: what comes back
//! for a page does not depend on when the page is asked for. A run is the
//! stream started on a plan and stepped once for each entry of an order,
//! the sequence of page numbers in the order in which their answers arrive.
//! The laws in this module hold for every plan, server and order.

use vstd::prelude::*;

use crate::stream::fitting;
use crate::stream::waiting;
use crate::stream::Answer;
use crate::stream::Emission;
use crate::stream::Plan;
use crate::stream::State;

verus! {

/// The answer of `server` for `page`.
pub open spec fn answer_at<T>(server: spec_fn(nat) -> Answer<T>, page: nat) -> Answer<T> {
    server(page)
}

/// The items of the pages `1..=pages`, in page order. A page that could
/// not be read holds none.
pub open spec fn flat<T>(server: spec_fn(nat) -> Answer<T>, pages: nat) -> Seq<T>
    decreases pages,
{
    if pages == 0 {
        Seq::empty()
    } else {
        flat(server, (pages - 1) as nat) + answer_at(server, pages).items()
    }
}

/// The item limit of the plan as a number.
pub open spec fn limit_of(plan: Plan) -> Option<nat> {
    match plan.limit {
        Some(limit) => Some(limit as nat),
        None => None,
    }
}

/// The room left under the item limit after the pages `1..=pages`.
pub open spec fn room_at<T>(plan: Plan, server: spec_fn(nat) -> Answer<T>, pages: nat) -> Option<
    nat,
> {
    match plan.limit {
        Some(limit) => if flat(server, pages).len() >= limit {
            Some(0nat)
        } else {
            Some((limit - flat(server, pages).len()) as nat)
        },
        None => None,
    }
}

/// Whether the stream ends once the pages `1..=page` have been handed out:
/// `page` is the last planned page, the item limit is reached, or the page
/// failed or is the last of the result.
pub open spec fn ends_at<T>(plan: Plan, server: spec_fn(nat) -> Answer<T>, page: nat) -> bool {
    ||| page >= plan.max_pages
    ||| room_at(plan, server, page) == Some(0nat)
    ||| (page >= 1 && answer_at(server, page).ends())
}

/// The first page from `from` on with which the stream ends.
pub open spec fn end_from<T>(plan: Plan, server: spec_fn(nat) -> Answer<T>, from: nat) -> nat
    decreases plan.max_pages - from,
{
    if ends_at(plan, server, from) {
        from
    } else {
        end_from(plan, server, from + 1)
    }
}

/// The page with which the stream ends; 0 where it hands out nothing.
pub open spec fn end_page<T>(plan: Plan, server: spec_fn(nat) -> Answer<T>) -> nat {
    end_from(plan, server, 0)
}

/// What the stream hands out in all: the items of the pages up to the end
/// page, in page order, cut to the item limit, and after them the error of
/// the end page if that page failed.
pub open spec fn expected<T>(plan: Plan, server: spec_fn(nat) -> Answer<T>) -> Emission<T> {
    let end = end_page(plan, server);
    Emission {
        items: fitting(limit_of(plan), flat(server, end)),
        error: if end >= 1 {
            answer_at(server, end).error()
        } else {
            None
        },
    }
}

/// A stream and what it has handed out so far.
pub struct Trace<T> {
    /// The stream.
    pub state: State<T>,
    /// All that the stream has handed out, in order.
    pub output: Emission<T>,
}

/// The stream after it was started: the first requests are out.
pub open spec fn started<T>(plan: Plan) -> Trace<T> {
    Trace { state: State::<T>::initial(plan).scheduled(), output: Emission::nothing() }
}

/// The stream after it was started and the answers of the pages in `order`
/// arrived, one after another, each as `server` gives it.
pub open spec fn run<T>(plan: Plan, server: spec_fn(nat) -> Answer<T>, order: Seq<nat>) -> Trace<T>
    decreases order.len(),
{
    if order.len() == 0 {
        started(plan)
    } else {
        let before = run(plan, server, order.drop_last());
        let (state, emission) = before.state.stepped(
            order.last(),
            answer_at(server, order.last()),
        );
        Trace { state, output: before.output.followed_by(emission) }
    }
}

/// Whether the slot holds an answer that ends the stream.
pub open spec fn slot_ends<T>(slot: Option<Answer<T>>) -> bool {
    slot matches Some(answer) && answer.ends()
}

/// Whether one of the slots holds an answer that ends the stream.
pub open spec fn has_end<T>(slots: Seq<Option<Answer<T>>>) -> bool {
    exists|i: int| 0 <= i < slots.len() && slot_ends(#[trigger] slots[i])
}

/// Whether every answer in the slots is the server's answer for its page.
pub open spec fn agrees<T>(state: State<T>, server: spec_fn(nat) -> Answer<T>) -> bool {
    forall|i: int|
        0 <= i < state.slots.len() ==> ((#[trigger] state.slots[i]) matches Some(answer)
            ==> answer == answer_at(server, (state.consumed + 1 + i) as nat))
}

/// What holds of a stream that reads from `server` and of what it has
/// handed out, whatever the order of the answers.
pub open spec fn consistent<T>(
    state: State<T>,
    output: Emission<T>,
    server: spec_fn(nat) -> Answer<T>,
) -> bool {
    &&& state.wf()
    &&& state.flying() <= state.plan.window
    &&& agrees(state, server)
    &&& end_page(state.plan, server) == end_from(state.plan, server, state.consumed)
    &&& state.room == room_at(state.plan, server, state.consumed)
    &&& !state.done ==> !ends_at(state.plan, server, state.consumed) && output == (Emission {
        items: flat(server, state.consumed),
        error: None,
    })
    &&& state.done ==> state.consumed == end_page(state.plan, server) && output == expected(
        state.plan,
        server,
    )
    &&& state.closed && !state.done ==> has_end(state.slots)
}

/// Answering a page in flight takes one from the pages in flight.
proof fn lemma_waiting_update<T>(slots: Seq<Option<Answer<T>>>, i: int, answer: Answer<T>)
    requires
        0 <= i < slots.len(),
        slots[i] is None,
    ensures
        waiting(slots.update(i, Some(answer))) == waiting(slots) - 1,
    decreases slots.len(),
{
    let updated = slots.update(i, Some(answer));
    if i == slots.len() - 1 {
        assert(updated.drop_last() =~= slots.drop_last());
    } else {
        lemma_waiting_update(slots.drop_last(), i, answer);
        assert(updated.drop_last() =~= slots.drop_last().update(i, Some(answer)));
    }
}

/// Handing out the page that is due leaves the pages in flight as they are.
proof fn lemma_waiting_drop_first<T>(slots: Seq<Option<Answer<T>>>)
    requires
        slots.len() > 0,
    ensures
        waiting(slots.drop_first()) == waiting(slots) - if slots[0] is None {
            1int
        } else {
            0int
        },
    decreases slots.len(),
{
    if slots.len() == 1 {
        assert(slots.drop_first() =~= Seq::empty());
        assert(slots.drop_last() =~= Seq::empty());
    } else {
        lemma_waiting_drop_first(slots.drop_last());
        assert(slots.drop_first().drop_last() =~= slots.drop_last().drop_first());
    }
}

/// Every page that is requested is one more in flight.
proof fn lemma_waiting_append<T>(slots: Seq<Option<Answer<T>>>, count: nat)
    ensures
        waiting(slots + Seq::new(count, |i: int| None::<Answer<T>>)) == waiting(slots) + count,
    decreases count,
{
    let more = slots + Seq::new(count, |i: int| None::<Answer<T>>);
    if count == 0 {
        assert(more =~= slots);
    } else {
        lemma_waiting_append(slots, (count - 1) as nat);
        assert(more.drop_last() =~= slots + Seq::new(
            (count - 1) as nat,
            |i: int| None::<Answer<T>>,
        ));
    }
}

/// A stream that has not started is consistent with every server.
proof fn lemma_initial<T>(plan: Plan, server: spec_fn(nat) -> Answer<T>)
    requires
        plan.valid(),
    ensures
        consistent(State::<T>::initial(plan), Emission::nothing(), server),
{
    let state = State::<T>::initial(plan);
    assert(flat(server, 0) =~= Seq::<T>::empty());
    assert(fitting(limit_of(plan), Seq::<T>::empty()) =~= Seq::<T>::empty());
}

/// Requesting pages keeps the stream consistent with the server.
proof fn lemma_scheduled<T>(state: State<T>, output: Emission<T>, server: spec_fn(nat) -> Answer<T>)
    requires
        consistent(state, output, server),
    ensures
        consistent(state.scheduled(), output, server),
{
    let next = state.scheduled();
    lemma_waiting_append(state.slots, state.capacity());
    if state.closed && !state.done {
        let i = choose|i: int| 0 <= i < state.slots.len() && slot_ends(#[trigger] state.slots[i]);
        assert(slot_ends(next.slots[i]));
    }
}

/// Taking the server's answer for a page keeps the stream consistent with the server.
proof fn lemma_accepted<T>(
    state: State<T>,
    output: Emission<T>,
    server: spec_fn(nat) -> Answer<T>,
    page: nat,
)
    requires
        consistent(state, output, server),
    ensures
        consistent(state.accepted(page, answer_at(server, page)), output, server),
{
    let answer = answer_at(server, page);
    let next = state.accepted(page, answer);
    if state.in_flight(page) {
        let index = page - state.consumed - 1;
        lemma_waiting_update(state.slots, index, answer);
        if answer.ends() {
            assert(slot_ends(next.slots[index]));
        } else if state.closed {
            let i = choose|i: int|
                0 <= i < state.slots.len() && slot_ends(#[trigger] state.slots[i]);
            assert(slot_ends(next.slots[i]));
        }
    }
}

/// Handing out the page that is due keeps the stream consistent with the server.
proof fn lemma_consumed_one<T>(
    state: State<T>,
    output: Emission<T>,
    server: spec_fn(nat) -> Answer<T>,
)
    requires
        consistent(state, output, server),
        state.ready(),
    ensures
        consistent(state.consumed_one().0, output.followed_by(state.consumed_one().1), server),
{
    let (next, first) = state.consumed_one();
    let page = state.consumed + 1;
    let answer = state.slots[0]->Some_0;
    assert(answer == answer_at(server, page));
    let before = flat(server, state.consumed);
    let after = flat(server, page);
    assert(after == before + answer.items());
    lemma_waiting_drop_first(state.slots);
    assert(agrees(next, server)) by {
        assert forall|i: int| 0 <= i < next.slots.len() implies ((#[trigger] next.slots[i])
            matches Some(a) ==> a == answer_at(server, (next.consumed + 1 + i) as nat)) by {
            assert(next.slots[i] == state.slots[i + 1]);
        }
    }
    assert(end_from(state.plan, server, state.consumed) == end_from(state.plan, server, page));
    let now = output.followed_by(first);
    if next.done {
        assert(ends_at(state.plan, server, page));
        assert(end_page(state.plan, server) == page);
        assert(now.items =~= fitting(limit_of(state.plan), after));
    } else {
        assert(first.items =~= answer.items());
        assert(now.items =~= after);
        if state.closed {
            let i = choose|i: int|
                0 <= i < state.slots.len() && slot_ends(#[trigger] state.slots[i]);
            assert(i != 0);
            assert(slot_ends(next.slots[i - 1]));
        }
    }
}

/// Handing out all that is due keeps the stream consistent with the
/// server, and leaves nothing that could be handed out.
proof fn lemma_drained<T>(state: State<T>, output: Emission<T>, server: spec_fn(nat) -> Answer<T>)
    requires
        consistent(state, output, server),
    ensures
        consistent(state.drained().0, output.followed_by(state.drained().1), server),
        !state.drained().0.ready(),
        state.drained().0.plan == state.plan,
        state.drained().0.requested == state.requested,
        state.drained().0.closed == state.closed,
    decreases state.slots.len(),
{
    if state.ready() {
        let (next, first) = state.consumed_one();
        lemma_consumed_one(state, output, server);
        lemma_drained(next, output.followed_by(first), server);
        let rest = next.drained().1;
        assert(output.followed_by(first).followed_by(rest) == output.followed_by(
            first.followed_by(rest),
        )) by {
            assert((output.items + first.items) + rest.items =~= output.items + (first.items
                + rest.items));
        }
    } else {
        assert(output.followed_by(Emission::nothing()) == output) by {
            assert(output.items + Seq::<T>::empty() =~= output.items);
        }
    }
}

/// One step keeps the stream consistent with the server.
proof fn lemma_stepped<T>(
    state: State<T>,
    output: Emission<T>,
    server: spec_fn(nat) -> Answer<T>,
    page: nat,
)
    requires
        consistent(state, output, server),
    ensures
        consistent(
            state.stepped(page, answer_at(server, page)).0,
            output.followed_by(state.stepped(page, answer_at(server, page)).1),
            server,
        ),
        !state.stepped(page, answer_at(server, page)).0.done ==> state.stepped(
            page,
            answer_at(server, page),
        ).0.due_in_flight(),
        state.stepped(page, answer_at(server, page)).0.plan == state.plan,
{
    let answer = answer_at(server, page);
    let accepted = state.accepted(page, answer);
    lemma_accepted(state, output, server, page);
    let (drained, emission) = accepted.drained();
    lemma_drained(accepted, output, server);
    lemma_scheduled(drained, output.followed_by(emission), server);
    lemma_refilled(drained);
}

/// After a stream that cannot hand out anything more has requested what
/// the window admits, it has ended or the page that is due is in flight.
proof fn lemma_refilled<T>(state: State<T>)
    requires
        state.wf(),
        !state.ready(),
        state.closed && !state.done ==> has_end(state.slots),
    ensures
        !state.scheduled().done ==> state.scheduled().due_in_flight(),
{
    if !state.done && state.slots.len() == 0 {
        assert(waiting(state.slots) == 0);
    }
}

/// Every run is consistent with its server, and while it goes on the page
/// that is due is in flight.
pub proof fn lemma_run<T>(plan: Plan, server: spec_fn(nat) -> Answer<T>, order: Seq<nat>)
    requires
        plan.valid(),
    ensures
        consistent(run(plan, server, order).state, run(plan, server, order).output, server),
        run(plan, server, order).state.plan == plan,
        !run(plan, server, order).state.done ==> run(plan, server, order).state.due_in_flight(),
    decreases order.len(),
{
    if order.len() == 0 {
        let initial = State::<T>::initial(plan);
        lemma_initial(plan, server);
        lemma_scheduled(initial, Emission::nothing(), server);
        lemma_refilled(initial);
    } else {
        let before = run(plan, server, order.drop_last());
        lemma_run(plan, server, order.drop_last());
        lemma_stepped(before.state, before.output, server, order.last());
    }
}

/// The stream ends with the page that [`end_from`] names, and with none
/// from `from` on before it.
pub proof fn lemma_end_from<T>(plan: Plan, server: spec_fn(nat) -> Answer<T>, from: nat)
    ensures
        end_from(plan, server, from) >= from,
        ends_at(plan, server, end_from(plan, server, from)),
        forall|page: nat|
            from <= page < end_from(plan, server, from) ==> !ends_at(plan, server, page),
    decreases plan.max_pages - from,
{
    if !ends_at(plan, server, from) {
        lemma_end_from(plan, server, from + 1);
    }
}

/// The end page is `page` where the stream ends with `page` and with no page before it.
pub proof fn lemma_end_page_is<T>(plan: Plan, server: spec_fn(nat) -> Answer<T>, page: nat)
    requires
        ends_at(plan, server, page),
        forall|earlier: nat| earlier < page ==> !ends_at(plan, server, earlier),
    ensures
        end_page(plan, server) == page,
{
    lemma_end_from(plan, server, 0);
    let end = end_page(plan, server);
    if end < page {
        assert(!ends_at(plan, server, end));
    } else if end > page {
        assert(!ends_at(plan, server, page));
    }
}

/// Handing out what is due requests nothing and keeps the plan.
pub proof fn lemma_drained_keeps<T>(state: State<T>)
    ensures
        state.drained().0.plan == state.plan,
        state.drained().0.requested == state.requested,
        state.drained().0.closed == state.closed,
    decreases state.slots.len(),
{
    if state.ready() {
        lemma_drained_keeps(state.consumed_one().0);
    }
}

/// Order does not matter: a stream that has ended has handed out the items
/// of the pages up to the end page in ascending page order, each page's
/// items in the server's order, cut to the item limit, and after them the
/// error of the end page if that page failed. The end page and the output
/// depend on the plan and the server alone, so two runs that differ only in
/// the order in which the answers arrive hand out the same.
pub proof fn law_order_does_not_matter<T>(
    plan: Plan,
    server: spec_fn(nat) -> Answer<T>,
    first: Seq<nat>,
    second: Seq<nat>,
)
    requires
        plan.valid(),
        run(plan, server, first).state.done,
        run(plan, server, second).state.done,
    ensures
        run(plan, server, first).output == expected(plan, server),
        run(plan, server, second).output == run(plan, server, first).output,
        run(plan, server, first).state.consumed == end_page(plan, server),
{
    lemma_run(plan, server, first);
    lemma_run(plan, server, second);
}

/// While a stream goes on, it has handed out exactly the items of the
/// pages that it has consumed, in page order, and no error.
pub proof fn law_output_in_page_order<T>(
    plan: Plan,
    server: spec_fn(nat) -> Answer<T>,
    order: Seq<nat>,
)
    requires
        plan.valid(),
        !run(plan, server, order).state.done,
    ensures
        run(plan, server, order).output.items == flat(
            server,
            run(plan, server, order).state.consumed,
        ),
        run(plan, server, order).output.error is None,
{
    lemma_run(plan, server, order);
}

/// The window bounds the fetches: never more than [`Plan::window`] pages
/// are in flight, and no page beyond the plan is requested.
pub proof fn law_window<T>(plan: Plan, server: spec_fn(nat) -> Answer<T>, order: Seq<nat>)
    requires
        plan.valid(),
    ensures
        run(plan, server, order).state.flying() <= plan.window,
        run(plan, server, order).state.requested <= plan.max_pages,
{
    lemma_run(plan, server, order);
}

/// The stream never waits for nothing: while it goes on, the page that is
/// due is in flight, and the stream has not yet consumed the end page.
pub proof fn law_due_page_in_flight<T>(
    plan: Plan,
    server: spec_fn(nat) -> Answer<T>,
    order: Seq<nat>,
)
    requires
        plan.valid(),
        !run(plan, server, order).state.done,
    ensures
        run(plan, server, order).state.in_flight(run(plan, server, order).state.consumed + 1),
        run(plan, server, order).state.flying() > 0,
        run(plan, server, order).state.consumed < end_page(plan, server),
{
    lemma_run(plan, server, order);
    let state = run(plan, server, order).state;
    lemma_waiting_drop_first(state.slots);
    lemma_end_from(plan, server, state.consumed);
}

/// The answer for the page that is due moves the stream on: at least that
/// page is handed out. With the law before, a stream whose due page is
/// answered again and again ends after at most as many such answers as the
/// end page says.
pub proof fn law_due_answer_advances<T>(state: State<T>, answer: Answer<T>)
    requires
        state.wf(),
        state.in_flight(state.consumed + 1),
    ensures
        state.stepped(state.consumed + 1, answer).0.consumed > state.consumed,
{
    let accepted = state.accepted(state.consumed + 1, answer);
    assert(accepted.ready());
    lemma_drained_grows(accepted.consumed_one().0);
}

/// Handing out what is due never takes back a page.
proof fn lemma_drained_grows<T>(state: State<T>)
    ensures
        state.drained().0.consumed >= state.consumed,
    decreases state.slots.len(),
{
    if state.ready() {
        lemma_drained_grows(state.consumed_one().0);
    }
}

/// Handing out what is due keeps an ended stream ended.
pub proof fn lemma_drained_done<T>(state: State<T>)
    ensures
        state.done ==> state.drained().0.done,
    decreases state.slots.len(),
{
}

/// The phases are passed in order: no step takes a stream back to an
/// earlier phase. A stream that has ended stays ended, whatever arrives.
pub proof fn law_phases_advance<T>(state: State<T>, page: nat, answer: Answer<T>)
    ensures
        state.stepped(page, answer).0.phase().rank() >= state.phase().rank(),
        state.scheduled().phase().rank() >= state.phase().rank(),
{
    let accepted = state.accepted(page, answer);
    lemma_drained_keeps(accepted);
    lemma_drained_done(accepted);
}

/// An answer that ends the result closes the stream: from the step that
/// takes it on, nothing more is requested.
pub proof fn law_end_closes<T>(state: State<T>, page: nat, answer: Answer<T>)
    requires
        state.in_flight(page),
        answer.ends(),
    ensures
        state.stepped(page, answer).0.closed,
        state.stepped(page, answer).0.requested == state.requested,
{
    lemma_drained_keeps(state.accepted(page, answer));
    let drained = state.accepted(page, answer).drained().0;
    assert(drained.capacity() == 0);
    assert(drained.slots + Seq::new(0, |i: int| None::<Answer<T>>) =~= drained.slots);
}

/// A closed stream stays closed and requests nothing, whatever arrives.
pub proof fn law_closed_requests_nothing<T>(state: State<T>, page: nat, answer: Answer<T>)
    requires
        state.closed,
    ensures
        state.stepped(page, answer).0.closed,
        state.stepped(page, answer).0.requested == state.requested,
{
    lemma_drained_keeps(state.accepted(page, answer));
}

/// The last page ends the stream cleanly: where no item limit is set,
/// `page` is the last of the result (as a short page of a result of unknown
/// size is) and the stream does not end before it, a stream that has ended
/// has handed out the items of the pages up to `page` and no error,
/// whatever came back for later pages.
pub proof fn law_last_page_ends_cleanly<T>(
    plan: Plan,
    server: spec_fn(nat) -> Answer<T>,
    page: nat,
    order: Seq<nat>,
)
    requires
        plan.valid(),
        plan.limit is None,
        page >= 1,
        answer_at(server, page) is Page,
        answer_at(server, page).ends(),
        forall|earlier: nat| earlier < page ==> !ends_at(plan, server, earlier),
        run(plan, server, order).state.done,
    ensures
        run(plan, server, order).output == (Emission {
            items: flat(server, page),
            error: None,
        }),
        run(plan, server, order).state.consumed == page,
{
    lemma_run(plan, server, order);
    lemma_end_page_is(plan, server, page);
}

/// An error cuts the stream short: where `page` could not be read and the
/// stream does not end before it, a stream that has ended has handed out
/// the items of the pages before `page`, then the error of `page`, and
/// nothing of any later page.
pub proof fn law_error_cuts_short<T>(
    plan: Plan,
    server: spec_fn(nat) -> Answer<T>,
    page: nat,
    order: Seq<nat>,
)
    requires
        plan.valid(),
        page >= 1,
        answer_at(server, page) is Failed,
        forall|earlier: nat| earlier < page ==> !ends_at(plan, server, earlier),
        run(plan, server, order).state.done,
    ensures
        run(plan, server, order).output == (Emission {
            items: flat(server, (page - 1) as nat),
            error: answer_at(server, page).error(),
        }),
{
    lemma_run(plan, server, order);
    lemma_end_page_is(plan, server, page);
    let before = flat(server, (page - 1) as nat);
    assert(!ends_at(plan, server, (page - 1) as nat));
    assert(flat(server, page) =~= before);
    assert(fitting(limit_of(plan), before) =~= before);
}

/// Never more items than the limit: a stream with an item limit hands out
/// at most that many items.
pub proof fn law_limit_bounds<T>(plan: Plan, server: spec_fn(nat) -> Answer<T>, order: Seq<nat>)
    requires
        plan.valid(),
        plan.limit is Some,
    ensures
        run(plan, server, order).output.items.len() <= plan.limit->Some_0,
{
    lemma_run(plan, server, order);
}

/// Number of items on page `page` of a result of `total` items in pages of
/// `per_page`: full pages, then the rest, then nothing.
pub open spec fn page_len(total: nat, per_page: nat, page: nat) -> nat {
    if page * per_page <= total {
        per_page
    } else if (page - 1) * per_page < total {
        (total - (page - 1) * per_page) as nat
    } else {
        0
    }
}

/// Whether `server` serves a result of `total` items in pages of
/// `per_page`: every page can be read and holds its share of the items, and
/// a page is the last of the result exactly where no item lies behind it.
pub open spec fn serves<T>(server: spec_fn(nat) -> Answer<T>, total: nat, per_page: nat) -> bool {
    forall|page: nat|
        page >= 1 ==> {
            &&& (#[trigger] answer_at(server, page)) is Page
            &&& answer_at(server, page).items().len() == page_len(total, per_page, page)
            &&& answer_at(server, page).ends() <==> page * per_page >= total
        }
}

/// The least of two numbers.
pub open spec fn least(a: nat, b: nat) -> nat {
    if a <= b {
        a
    } else {
        b
    }
}

proof fn lemma_next_multiple(pages: nat, per_page: nat)
    ensures
        (pages + 1) * per_page == pages * per_page + per_page,
        pages * per_page >= 0,
{
    assert((pages + 1) * per_page == pages * per_page + per_page) by (nonlinear_arith);
    assert(pages * per_page >= 0) by (nonlinear_arith);
}

proof fn lemma_multiples_grow(fewer: nat, more: nat, per_page: nat)
    requires
        fewer <= more,
    ensures
        fewer * per_page <= more * per_page,
{
    assert(fewer * per_page <= more * per_page) by (nonlinear_arith)
        requires
            fewer <= more,
    ;
}

/// The pages `1..=pages` of a served result hold `pages` full pages of
/// items, or all of the items where there are fewer.
pub proof fn lemma_flat_len<T>(
    server: spec_fn(nat) -> Answer<T>,
    total: nat,
    per_page: nat,
    pages: nat,
)
    requires
        serves(server, total, per_page),
    ensures
        flat(server, pages).len() == least(pages * per_page, total),
    decreases pages,
{
    if pages == 0 {
        assert(0 * per_page == 0) by (nonlinear_arith);
    } else {
        lemma_flat_len(server, total, per_page, (pages - 1) as nat);
        lemma_next_multiple((pages - 1) as nat, per_page);
        assert(answer_at(server, pages).items().len() == page_len(total, per_page, pages));
    }
}

/// `pages_for` rounds up: the pages hold the items, and one page less does not.
pub proof fn lemma_pages_for(items: nat, per_page: nat)
    requires
        per_page > 0,
    ensures
        crate::pagination::pages_for(items as int, per_page as int) >= 0,
        crate::pagination::pages_for(items as int, per_page as int) * per_page >= items,
        items > 0 ==> (crate::pagination::pages_for(items as int, per_page as int) - 1) * per_page
            < items,
        items == 0 ==> crate::pagination::pages_for(items as int, per_page as int) == 0,
{
    let pages = crate::pagination::pages_for(items as int, per_page as int);
    let full = items as int / per_page as int;
    let rest = items as int % per_page as int;
    assert(items == full * per_page + rest && 0 <= rest < per_page && full >= 0) by
        (nonlinear_arith)
        requires
            full == items as int / per_page as int,
            rest == items as int % per_page as int,
            per_page > 0,
            items >= 0,
    ;
    assert((full + 1) * per_page == full * per_page + per_page) by (nonlinear_arith);
    assert((full - 1) * per_page == full * per_page - per_page) by (nonlinear_arith);
}

/// Completeness: for a server that serves `total` items in pages of the
/// plan's size, a plan without item limit that holds
/// `ceil(total / per_page)` pages, and any order of the answers, a stream
/// that has ended has requested exactly `ceil(total / per_page)` pages and
/// handed out all `total` items, in page order and without an error. With
/// `total == 0` it requests no page and hands out nothing.
pub proof fn law_complete<T>(
    plan: Plan,
    server: spec_fn(nat) -> Answer<T>,
    total: nat,
    order: Seq<nat>,
)
    requires
        plan.valid(),
        plan.limit is None,
        serves(server, total, plan.per_page as nat),
        plan.max_pages == crate::pagination::pages_for(total as int, plan.per_page as int),
        run(plan, server, order).state.done,
    ensures
        run(plan, server, order).state.requested == plan.max_pages,
        run(plan, server, order).output.items == flat(server, plan.max_pages as nat),
        run(plan, server, order).output.items.len() == total,
        run(plan, server, order).output.error is None,
{
    let pages = plan.max_pages as nat;
    let per_page = plan.per_page as nat;
    lemma_run(plan, server, order);
    lemma_pages_for(total, per_page);
    assert forall|earlier: nat| earlier < pages implies !ends_at(plan, server, earlier) by {
        if earlier >= 1 {
            lemma_multiples_grow(earlier, (pages - 1) as nat, per_page);
            assert(answer_at(server, earlier).ends() <==> earlier * per_page >= total);
        }
    }
    lemma_end_page_is(plan, server, pages);
    lemma_flat_len(server, total, per_page, pages);
    if pages >= 1 {
        assert(answer_at(server, pages) is Page);
    }
}

/// Limit enforcement: for a server that serves at least `limit` items in
/// pages of the plan's size, a plan with item limit `limit` that holds
/// `ceil(limit / per_page)` pages, and any order of the answers, a stream
/// that has ended has handed out exactly the first `limit` items and no
/// error, and has requested no more than `ceil(limit / per_page)` pages.
pub proof fn law_limit<T>(
    plan: Plan,
    server: spec_fn(nat) -> Answer<T>,
    total: nat,
    order: Seq<nat>,
)
    requires
        plan.valid(),
        plan.limit is Some,
        plan.limit->Some_0 <= total,
        serves(server, total, plan.per_page as nat),
        plan.max_pages == crate::pagination::pages_for(
            plan.limit->Some_0 as int,
            plan.per_page as int,
        ),
        run(plan, server, order).state.done,
    ensures
        run(plan, server, order).output.items.len() == plan.limit->Some_0,
        run(plan, server, order).output.items == flat(server, end_page(plan, server)).take(
            plan.limit->Some_0 as int,
        ),
        run(plan, server, order).output.error is None,
        run(plan, server, order).state.requested <= crate::pagination::pages_for(
            plan.limit->Some_0 as int,
            plan.per_page as int,
        ),
{
    let limit = plan.limit->Some_0 as nat;
    let per_page = plan.per_page as nat;
    let end = end_page(plan, server);
    lemma_run(plan, server, order);
    lemma_pages_for(limit, per_page);
    lemma_end_from(plan, server, 0);
    lemma_flat_len(server, total, per_page, end);
    if end >= plan.max_pages {
        lemma_multiples_grow(plan.max_pages as nat, end, per_page);
    }
    if end >= 1 {
        assert(answer_at(server, end) is Page);
        assert(answer_at(server, end).ends() <==> end * per_page >= total);
    } else {
        assert(0 * per_page == 0) by (nonlinear_arith);
    }
    assert(flat(server, end).len() >= limit);
    let all = flat(server, end);
    assert(fitting(Some(limit), all) =~= all.take(limit as int));
}

} // verus!
