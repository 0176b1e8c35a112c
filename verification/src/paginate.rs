//! The two pagination strategies, as state machines fed one decoded page
//! at a time. A driver owns the network: it asks the machine for the next
//! request position, performs the request, decodes, and feeds the page
//! back in, until the machine reports that it is finished or failed.
//!
//! Cursor advance: the continuation key is the identifier of the last
//! record accumulated, and the sole termination signal is a page whose
//! reported remaining count is zero or less.
//!
//! Page-number accumulation: pages are numbered from one, and the fetch
//! ends once the accumulated item count reaches the largest grand total
//! any page has reported (the server is not guaranteed a consistent
//! total).

use vstd::prelude::*;
use crate::err::ApiError;

verus! {

/// A record with the identifier that cursor pagination advances on.
pub trait CursorKey {
    /// The identifier.
    spec fn key_spec(&self) -> i64;

    /// The identifier.
    fn key(&self) -> (k: i64)
        ensures
            k == self.key_spec(),
    ;
}

/// The concatenation of every page's data, in order. A page is abstracted
/// to the records it delivered and the count the server reported alongside
/// them: remaining items for the cursor strategy, grand total for the page
/// strategy.
pub open spec fn concat_data<T>(pages: Seq<(Seq<T>, i64)>) -> Seq<T>
    decreases pages.len(),
{
    if pages.len() == 0 {
        Seq::empty()
    } else {
        pages[0].0 + concat_data(pages.drop_first())
    }
}

/// The larger of two numbers.
pub open spec fn max2(a: int, b: int) -> int {
    if a > b {
        a
    } else {
        b
    }
}

/// The largest count reported over a sequence of pages, folded onto a
/// starting value.
pub open spec fn fold_max<T>(base: int, pages: Seq<(Seq<T>, i64)>) -> int
    decreases pages.len(),
{
    if pages.len() == 0 {
        base
    } else {
        fold_max(max2(base, pages[0].1 as int), pages.drop_first())
    }
}

// ---------------------------------------------------------------------
// Cursor advance
// ---------------------------------------------------------------------
/// The abstract state of a cursor fetch.
pub struct CursorModel<T> {
    pub items: Seq<T>,
    pub cursor: i64,
    pub finished: bool,
}

/// The state before the first request: nothing accumulated, the sentinel
/// cursor zero.
pub open spec fn cursor_init<T>() -> CursorModel<T> {
    CursorModel { items: Seq::empty(), cursor: 0, finished: false }
}

/// Whether feeding this page succeeds: the accumulator must not be left
/// empty, so a fetch whose pages have delivered nothing at all fails.
pub open spec fn cursor_feed_ok<T>(m: CursorModel<T>, data: Seq<T>, total: i64) -> bool {
    m.items.len() + data.len() > 0
}

/// The state after a successful feed: the page's data is appended, the
/// cursor advances to the identifier of the last record accumulated, and
/// the fetch is finished exactly when this page reported a remaining
/// count of zero or less.
pub open spec fn cursor_feed_next<T: CursorKey>(
    m: CursorModel<T>,
    data: Seq<T>,
    total: i64,
) -> CursorModel<T> {
    let items = m.items + data;
    CursorModel { items, cursor: items.last().key_spec(), finished: total <= 0 }
}

/// A cursor fetch in progress.
pub struct CursorFetch<T> {
    pub items: Vec<T>,
    pub cursor: i64,
    pub finished: bool,
}

impl<T: CursorKey> View for CursorFetch<T> {
    type V = CursorModel<T>;

    open spec fn view(&self) -> CursorModel<T> {
        CursorModel { items: self.items@, cursor: self.cursor, finished: self.finished }
    }
}

impl<T: CursorKey> CursorFetch<T> {
    /// A fetch before its first request.
    pub fn new() -> (s: Self)
        ensures
            s@ == cursor_init::<T>(),
    {
        CursorFetch { items: Vec::new(), cursor: 0, finished: false }
    }

    /// The position the next request must be keyed on.
    pub fn cursor(&self) -> (c: i64)
        ensures
            c == self@.cursor,
    {
        self.cursor
    }

    /// Whether the fetch is complete and no further request may be issued.
    pub fn done(&self) -> (d: bool)
        ensures
            d == self@.finished,
    {
        self.finished
    }

    /// Surrenders the accumulated records.
    pub fn into_items(self) -> (v: Vec<T>)
        ensures
            v@ == self@.items,
    {
        self.items
    }

    /// Feeds the page answered for the current cursor. On success the
    /// state advances as `cursor_feed_next` says; a fetch that still has
    /// no records at all fails with the cursor the empty answer was
    /// requested with, and issues nothing further.
    pub fn feed(&mut self, data: Vec<T>, total: i64) -> (r: Result<(), ApiError>)
        requires
            !old(self)@.finished,
        ensures
            match r {
                Ok(()) => cursor_feed_ok(old(self)@, data@, total) && final(self)@
                    == cursor_feed_next(old(self)@, data@, total),
                Err(e) => !cursor_feed_ok(old(self)@, data@, total) && e == (ApiError::NoData {
                    cursor: old(self)@.cursor,
                }) && final(self)@.items == old(self)@.items + data@ && final(self)@.finished,
            },
    {
        let mut data = data;
        self.items.append(&mut data);
        if self.items.len() == 0 {
            let cursor = self.cursor;
            self.finished = true;
            return Err(ApiError::NoData { cursor });
        }
        let last = self.items.len() - 1;
        self.cursor = self.items[last].key();
        proof {
            assert(self.items@.last() == self.items@[self.items@.len() - 1]);
        }
        self.finished = total <= 0;
        Ok(())
    }
}

/// What a driver reaches when it feeds consecutive pages from an endpoint
/// until the machine finishes, fails, or the endpoint runs out of pages.
pub struct CursorRun<T> {
    pub state: CursorModel<T>,
    pub requests: nat,
    pub failed: bool,
}

/// The run of a cursor fetch over the pages an endpoint would answer, in
/// order: one request per page consumed, stopping at the first finish or
/// failure.
pub open spec fn cursor_run<T: CursorKey>(
    m: CursorModel<T>,
    pages: Seq<(Seq<T>, i64)>,
) -> CursorRun<T>
    decreases pages.len(),
{
    if m.finished || pages.len() == 0 {
        CursorRun { state: m, requests: 0, failed: false }
    } else if !cursor_feed_ok(m, pages[0].0, pages[0].1) {
        CursorRun { state: m, requests: 1, failed: true }
    } else {
        let rest = cursor_run(cursor_feed_next(m, pages[0].0, pages[0].1), pages.drop_first());
        CursorRun { state: rest.state, requests: rest.requests + 1, failed: rest.failed }
    }
}

proof fn lemma_cursor_run_all<T: CursorKey>(m: CursorModel<T>, pages: Seq<(Seq<T>, i64)>)
    requires
        !m.finished,
        pages.len() > 0,
        forall|i: int| 0 <= i < pages.len() - 1 ==> #[trigger] pages[i].1 > 0,
        pages[pages.len() - 1].1 <= 0,
        m.items.len() + pages[0].0.len() > 0,
    ensures
        !cursor_run(m, pages).failed,
        cursor_run(m, pages).requests == pages.len(),
        cursor_run(m, pages).state.finished,
        cursor_run(m, pages).state.items == m.items + concat_data(pages),
    decreases pages.len(),
{
    let next = cursor_feed_next(m, pages[0].0, pages[0].1);
    let rest = pages.drop_first();
    if pages.len() == 1 {
        assert(pages[0].1 <= 0);
        assert(next.finished);
        assert(cursor_run(next, rest).requests == 0);
        assert(concat_data(rest) =~= Seq::<T>::empty());
        assert(m.items + concat_data(pages) =~= m.items + pages[0].0);
    } else {
        assert(pages[0].1 > 0);
        assert(!next.finished);
        assert(rest[0] == pages[1]);
        assert(rest[rest.len() - 1] == pages[pages.len() - 1]);
        assert(forall|i: int| 0 <= i < rest.len() - 1 ==> #[trigger] rest[i].1 > 0) by {
            assert(forall|i: int| 0 <= i < rest.len() - 1 ==> rest[i] == #[trigger] pages[i + 1]);
        }
        lemma_cursor_run_all(next, rest);
        assert((m.items + pages[0].0) + concat_data(rest) =~= m.items + (pages[0].0 + concat_data(
            rest,
        )));
    }
}

/// For every endpoint whose pages each report a positive remaining count
/// until a final page reports zero or less, and whose first page carries
/// at least one record, a cursor fetch driven from the start succeeds,
/// issues exactly one request per page and none after the final page, and
/// returns the concatenation of every page's data in request order.
pub proof fn lemma_cursor_collects_all<T: CursorKey>(pages: Seq<(Seq<T>, i64)>)
    requires
        pages.len() > 0,
        forall|i: int| 0 <= i < pages.len() - 1 ==> #[trigger] pages[i].1 > 0,
        pages[pages.len() - 1].1 <= 0,
        pages[0].0.len() > 0,
    ensures
        !cursor_run(cursor_init::<T>(), pages).failed,
        cursor_run(cursor_init::<T>(), pages).requests == pages.len(),
        cursor_run(cursor_init::<T>(), pages).state.finished,
        cursor_run(cursor_init::<T>(), pages).state.items == concat_data(pages),
{
    lemma_cursor_run_all(cursor_init::<T>(), pages);
    assert(Seq::<T>::empty() + concat_data(pages) =~= concat_data(pages));
}

/// A cursor endpoint whose very first page carries no records fails after
/// that one request — whatever remaining count the page reports — rather
/// than looping or silently returning an empty result.
pub proof fn lemma_cursor_empty_first_page_fails<T: CursorKey>(pages: Seq<(Seq<T>, i64)>)
    requires
        pages.len() > 0,
        pages[0].0.len() == 0,
    ensures
        cursor_run(cursor_init::<T>(), pages).failed,
        cursor_run(cursor_init::<T>(), pages).requests == 1,
{
}

// ---------------------------------------------------------------------
// Page-number accumulation
// ---------------------------------------------------------------------
/// One page response under the page-number strategy. The `errors` and
/// `aggregate_results` payloads are diagnostic: a page carrying them is
/// still consumed, and the fetch continues regardless of them.
pub struct PagedEnvelope<T> {
    pub aggregate_results: Option<()>,
    pub data: Vec<T>,
    pub errors: Option<()>,
    pub total: i64,
}

/// The abstract state of a page-number fetch.
pub struct PagedModel<T> {
    pub items: Seq<T>,
    pub page: int,
    pub max_total: int,
    pub finished: bool,
}

/// The state before the first request: nothing accumulated, page one
/// pending, no total reported yet.
pub open spec fn paged_init<T>() -> PagedModel<T> {
    PagedModel { items: Seq::empty(), page: 1, max_total: 0, finished: false }
}

/// The state after one page is fed: the recorded total becomes the
/// largest reported so far, the data is appended, and the fetch is
/// finished exactly when the accumulated count has reached that largest
/// total; otherwise the page number advances. Only the page's data and
/// total matter: embedded diagnostics change nothing.
pub open spec fn paged_feed_next<T>(m: PagedModel<T>, data: Seq<T>, total: i64) -> PagedModel<T> {
    let mx = max2(m.max_total, total as int);
    let items = m.items + data;
    let fin = items.len() >= mx;
    PagedModel {
        items,
        page: if fin {
            m.page
        } else {
            m.page + 1
        },
        max_total: mx,
        finished: fin,
    }
}

/// A page-number fetch in progress.
pub struct PagedFetch<T> {
    pub items: Vec<T>,
    pub page: i64,
    pub max_total: i64,
    pub finished: bool,
}

impl<T> View for PagedFetch<T> {
    type V = PagedModel<T>;

    open spec fn view(&self) -> PagedModel<T> {
        PagedModel {
            items: self.items@,
            page: self.page as int,
            max_total: self.max_total as int,
            finished: self.finished,
        }
    }
}

impl<T> PagedFetch<T> {
    /// A fetch before its first request.
    pub fn new() -> (s: Self)
        ensures
            s@ == paged_init::<T>(),
    {
        PagedFetch { items: Vec::new(), page: 1, max_total: 0, finished: false }
    }

    /// The page number the next request must carry.
    pub fn page(&self) -> (p: i64)
        ensures
            p == self@.page,
    {
        self.page
    }

    /// Whether the fetch is complete and no further request may be issued.
    pub fn done(&self) -> (d: bool)
        ensures
            d == self@.finished,
    {
        self.finished
    }

    /// Surrenders the accumulated records.
    pub fn into_items(self) -> (v: Vec<T>)
        ensures
            v@ == self@.items,
    {
        self.items
    }

    /// Feeds the envelope answered for the current page number and reports
    /// whether the fetch is now complete. Embedded diagnostic payloads are
    /// tolerated; the caller may log them.
    pub fn feed(&mut self, envelope: PagedEnvelope<T>) -> (done: bool)
        requires
            !old(self)@.finished,
            old(self)@.page < i64::MAX,
            old(self)@.max_total >= 0,
        ensures
            final(self)@ == paged_feed_next(old(self)@, envelope.data@, envelope.total),
            done == final(self)@.finished,
            final(self)@.max_total >= 0,
    {
        if envelope.total > self.max_total {
            self.max_total = envelope.total;
        }
        let mut data = envelope.data;
        self.items.append(&mut data);
        let fin = if self.max_total <= 0 {
            true
        } else {
            self.items.len() as u64 >= self.max_total as u64
        };
        if !fin {
            self.page = self.page + 1;
        }
        self.finished = fin;
        fin
    }
}

/// What a driver reaches when it feeds consecutive pages from an endpoint
/// until the machine finishes or the endpoint runs out of pages.
pub struct PagedRun<T> {
    pub state: PagedModel<T>,
    pub requests: nat,
}

/// The run of a page-number fetch over the pages an endpoint would
/// answer, in order: one request per page consumed, stopping at the first
/// finish.
pub open spec fn paged_run<T>(m: PagedModel<T>, pages: Seq<(Seq<T>, i64)>) -> PagedRun<T>
    decreases pages.len(),
{
    if m.finished || pages.len() == 0 {
        PagedRun { state: m, requests: 0 }
    } else {
        let rest = paged_run(paged_feed_next(m, pages[0].0, pages[0].1), pages.drop_first());
        PagedRun { state: rest.state, requests: rest.requests + 1 }
    }
}

proof fn lemma_paged_run_from<T>(m: PagedModel<T>, pages: Seq<(Seq<T>, i64)>)
    requires
        !m.finished,
    ensures
        paged_run(m, pages).requests <= pages.len(),
        paged_run(m, pages).state.items == m.items + concat_data(
            pages.take(paged_run(m, pages).requests as int),
        ),
        paged_run(m, pages).state.max_total == fold_max(
            m.max_total,
            pages.take(paged_run(m, pages).requests as int),
        ),
        paged_run(m, pages).state.finished ==> paged_run(m, pages).state.items.len() >= paged_run(
            m,
            pages,
        ).state.max_total,
        !paged_run(m, pages).state.finished ==> paged_run(m, pages).requests == pages.len(),
        forall|j: int|
            0 < j < paged_run(m, pages).requests ==> (m.items + concat_data(
                #[trigger] pages.take(j),
            )).len() < fold_max(m.max_total, pages.take(j)),
    decreases pages.len(),
{
    if pages.len() == 0 {
        assert(pages.take(0) =~= Seq::<(Seq<T>, i64)>::empty());
        assert(m.items + concat_data(pages.take(0)) =~= m.items);
    } else {
        let next = paged_feed_next(m, pages[0].0, pages[0].1);
        let rest = pages.drop_first();
        assert(pages.take(1).drop_first() =~= Seq::<(Seq<T>, i64)>::empty());
        assert(concat_data(pages.take(1)) == pages[0].0 + concat_data(
            pages.take(1).drop_first(),
        ));
        assert(m.items + concat_data(pages.take(1)) =~= m.items + pages[0].0);
        assert(fold_max(m.max_total, pages.take(1)) == fold_max(
            max2(m.max_total, pages[0].1 as int),
            pages.take(1).drop_first(),
        ));
        if next.finished {
            assert(paged_run(m, pages).requests == 1);
        } else {
            lemma_paged_run_from(next, rest);
            let r1 = paged_run(next, rest).requests;
            assert(paged_run(m, pages).requests == r1 + 1);
            assert(pages.take(r1 + 1 as int).drop_first() =~= rest.take(r1 as int));
            assert(concat_data(pages.take(r1 + 1 as int)) == pages[0].0 + concat_data(
                rest.take(r1 as int),
            ));
            assert(m.items + concat_data(pages.take(r1 + 1 as int)) =~= (m.items + pages[0].0)
                + concat_data(rest.take(r1 as int)));
            assert(fold_max(m.max_total, pages.take(r1 + 1 as int)) == fold_max(
                max2(m.max_total, pages[0].1 as int),
                rest.take(r1 as int),
            ));
            assert forall|j: int| 0 < j < r1 + 1 implies (m.items + concat_data(
                #[trigger] pages.take(j),
            )).len() < fold_max(m.max_total, pages.take(j)) by {
                if j == 1 {
                    assert(!next.finished);
                } else {
                    assert(0 < j - 1 < r1);
                    assert((next.items + concat_data(rest.take(j - 1))).len() < fold_max(
                        next.max_total,
                        rest.take(j - 1),
                    ));
                    assert(pages.take(j).drop_first() =~= rest.take(j - 1));
                    assert(concat_data(pages.take(j)) == pages[0].0 + concat_data(
                        rest.take(j - 1),
                    ));
                    assert(m.items + concat_data(pages.take(j)) =~= (m.items + pages[0].0)
                        + concat_data(rest.take(j - 1)));
                    assert(fold_max(m.max_total, pages.take(j)) == fold_max(
                        max2(m.max_total, pages[0].1 as int),
                        rest.take(j - 1),
                    ));
                }
            }
        }
    }
}

/// A page-number fetch from the start terminates exactly when the
/// accumulated item count first reaches the largest total any consumed
/// page has reported — the maximum ever seen, not the most recent one.
/// The accumulated records are the concatenation of the consumed pages'
/// data; while no prefix reaches its running maximum, the fetch keeps
/// consuming until the endpoint runs out.
pub proof fn lemma_paged_stops_at_running_max<T>(pages: Seq<(Seq<T>, i64)>)
    ensures
        paged_run(paged_init::<T>(), pages).requests <= pages.len(),
        paged_run(paged_init::<T>(), pages).state.items == concat_data(
            pages.take(paged_run(paged_init::<T>(), pages).requests as int),
        ),
        paged_run(paged_init::<T>(), pages).state.finished ==> paged_run(
            paged_init::<T>(),
            pages,
        ).state.items.len() >= fold_max(
            0,
            pages.take(paged_run(paged_init::<T>(), pages).requests as int),
        ),
        !paged_run(paged_init::<T>(), pages).state.finished ==> paged_run(
            paged_init::<T>(),
            pages,
        ).requests == pages.len(),
        forall|j: int|
            0 < j < paged_run(paged_init::<T>(), pages).requests ==> concat_data(
                #[trigger] pages.take(j),
            ).len() < fold_max(0, pages.take(j)),
{
    lemma_paged_run_from(paged_init::<T>(), pages);
    let r = paged_run(paged_init::<T>(), pages).requests;
    assert(Seq::<T>::empty() + concat_data(pages.take(r as int)) =~= concat_data(
        pages.take(r as int),
    ));
    assert forall|j: int| 0 < j < r implies concat_data(#[trigger] pages.take(j)).len() < fold_max(
        0,
        pages.take(j),
    ) by {
        assert(Seq::<T>::empty() + concat_data(pages.take(j)) =~= concat_data(pages.take(j)));
    }
}

/// An endpoint whose first page already reports a total no larger than
/// that page's own record count is drained in exactly one request.
pub proof fn lemma_paged_single_page<T>(pages: Seq<(Seq<T>, i64)>)
    requires
        pages.len() > 0,
        pages[0].1 <= pages[0].0.len(),
    ensures
        paged_run(paged_init::<T>(), pages).requests == 1,
        paged_run(paged_init::<T>(), pages).state.finished,
        paged_run(paged_init::<T>(), pages).state.items == pages[0].0,
{
    let next = paged_feed_next(paged_init::<T>(), pages[0].0, pages[0].1);
    assert(Seq::<T>::empty() + pages[0].0 =~= pages[0].0);
    assert(next.finished);
    assert(paged_run(next, pages.drop_first()) == (PagedRun { state: next, requests: 0nat }));
    assert(paged_run(paged_init::<T>(), pages) == (PagedRun { state: next, requests: 1nat }));
}

} // verus!
