//! The pagination engine: walking a cursor-chained sequence of pages.
//!
//! Each response of a paginated collection arrives as a [`Page`]: the batch
//! of items its body decoded to, and the `next` cursor its link header
//! carried (extracted before the body is consumed). Two modes walk the
//! chain over the same algorithm:
//!
//! - the eager mode accumulates every batch and hands back one collection
//!   ([`EagerFetch`], driven over a whole transcript by [`fetch_all_pages`]);
//! - the lazy mode ([`LazyPager`]) is a pull-driven state machine that hands
//!   out one item per pull and asks its caller to fetch the next page only
//!   when the current batch is spent and a cursor remains.
//!
//! Neither mode bounds the number of pages: a server that produces a cursor
//! cycle causes an unbounded walk. That gap is deliberate; a silent bound
//! would change what callers observe.

use vstd::prelude::*;
use crate::ApiError;

verus! {

/// One page of a paginated collection: the decoded batch, in response
/// order, and the cursor of the following page if the response named one.
pub struct Page<T> {
    pub items: Vec<T>,
    pub next: Option<String>,
}

/// An optional cursor, as characters.
pub open spec fn opt_str_view(o: Option<String>) -> Option<Seq<char>> {
    match o {
        Option::None => Option::None,
        Option::Some(s) => Option::Some(s@),
    }
}

/// What the eager walk accumulates: each batch appended after the ones
/// before it.
pub open spec fn eager_collect<T>(pages: Seq<Seq<T>>) -> Seq<T>
    decreases pages.len(),
{
    if pages.len() == 0 {
        Seq::empty()
    } else {
        eager_collect(pages.drop_last()) + pages.last()
    }
}

/// What the lazy walk yields: the first batch's items, then the rest.
pub open spec fn lazy_collect<T>(pages: Seq<Seq<T>>) -> Seq<T>
    decreases pages.len(),
{
    if pages.len() == 0 {
        Seq::empty()
    } else {
        pages.first() + lazy_collect(pages.drop_first())
    }
}

/// Loading one more page extends the lazy yield by that page's items.
pub proof fn lemma_lazy_collect_push<T>(pages: Seq<Seq<T>>, page: Seq<T>)
    ensures
        lazy_collect(pages.push(page)) == lazy_collect(pages) + page,
    decreases pages.len(),
{
    if pages.len() == 0 {
        assert(pages.push(page).drop_first() =~= Seq::<Seq<T>>::empty());
        assert(lazy_collect(Seq::<Seq<T>>::empty()) == Seq::<T>::empty());
        assert(pages.push(page).first() == page);
        assert(lazy_collect(pages.push(page)) =~= lazy_collect(pages) + page);
    } else {
        assert(pages.push(page).drop_first() =~= pages.drop_first().push(page));
        lemma_lazy_collect_push(pages.drop_first(), page);
        assert(pages.first() + (lazy_collect(pages.drop_first()) + page) =~= (pages.first()
            + lazy_collect(pages.drop_first())) + page);
    }
}

/// Law: over any fixed sequence of pages, the eager walk's collection and
/// the full materialization of the lazy walk's yield are the same items in
/// the same order.
pub proof fn lemma_lazy_eager_equivalence<T>(pages: Seq<Seq<T>>)
    ensures
        eager_collect(pages) == lazy_collect(pages),
    decreases pages.len(),
{
    if pages.len() > 0 {
        lemma_lazy_eager_equivalence(pages.drop_last());
        lemma_lazy_collect_push(pages.drop_last(), pages.last());
        assert(pages.drop_last().push(pages.last()) =~= pages);
    }
}

/// The eager accumulator: absorbs one batch per response, in arrival order.
pub struct EagerFetch<T> {
    items: Vec<T>,
    pages: Ghost<Seq<Seq<T>>>,
}

impl<T> EagerFetch<T> {
    /// The batches absorbed so far, in order.
    pub closed spec fn pages(self) -> Seq<Seq<T>> {
        self.pages@
    }

    /// What the accumulator holds so far.
    pub closed spec fn collected(self) -> Seq<T> {
        self.items@
    }

    /// The accumulator holds exactly the absorbed batches, concatenated.
    pub open spec fn wf(self) -> bool {
        self.collected() == eager_collect(self.pages())
    }

    /// An empty accumulator.
    pub fn new() -> (f: Self)
        ensures
            f.wf(),
            f.pages() == Seq::<Seq<T>>::empty(),
    {
        EagerFetch { items: Vec::new(), pages: Ghost(Seq::empty()) }
    }

    /// Appends one batch after everything absorbed before it.
    pub fn absorb(&mut self, batch: Vec<T>)
        requires
            old(self).wf(),
        ensures
            final(self).wf(),
            final(self).pages() == old(self).pages().push(batch@),
    {
        let ghost b = batch@;
        let mut batch = batch;
        self.items.append(&mut batch);
        proof {
            self.pages@ = self.pages@.push(b);
            assert(self.pages@.drop_last() =~= old(self).pages@);
        }
    }

    /// The concatenation of every absorbed batch, in page order.
    pub fn into_items(self) -> (items: Vec<T>)
        requires
            self.wf(),
        ensures
            items@ == eager_collect(self.pages()),
    {
        self.items
    }
}

/// What one pull of the lazy walk yields.
pub enum LazyStep<T> {
    /// The next item of the current batch.
    Item(T),
    /// The batch is spent and this cursor names the next page: fetch it and
    /// hand the outcome to [`LazyPager::load_page`].
    Fetch(String),
    /// The batch is spent and no cursor remains: the walk is over.
    Done,
    /// A page failed to arrive or decode; the walk ended with this error.
    /// Items already yielded stay valid.
    Failed(ApiError),
}

/// The lazy pagination state machine: `{current batch, next cursor,
/// failure}`, advanced one pull at a time by [`LazyPager::poll`].
///
/// The first request is made before construction: the machine is built from
/// the outcome of fetching the start URL, so a consumer that never pulls has
/// still cost one round trip.
pub struct LazyPager<T> {
    rev_batch: Vec<T>,
    cursor: Option<String>,
    awaiting: bool,
    failure: Option<ApiError>,
    emitted: Ghost<Seq<T>>,
    loaded: Ghost<Seq<Seq<T>>>,
}

impl<T> LazyPager<T> {
    /// The items handed out so far, in order.
    pub closed spec fn emitted(self) -> Seq<T> {
        self.emitted@
    }

    /// The batches of the pages loaded so far, in order.
    pub closed spec fn loaded(self) -> Seq<Seq<T>> {
        self.loaded@
    }

    /// What is left of the current batch.
    pub closed spec fn remaining(self) -> Seq<T> {
        self.rev_batch@.reverse()
    }

    /// The cursor of the next page, if the last loaded page named one.
    pub closed spec fn cursor_view(self) -> Option<Seq<char>> {
        opt_str_view(self.cursor)
    }

    /// Whether a [`LazyStep::Fetch`] is outstanding: the machine waits for
    /// [`LazyPager::load_page`] before it can be pulled again.
    pub closed spec fn awaiting(self) -> bool {
        self.awaiting
    }

    /// The error that ended the walk, if one did.
    pub closed spec fn failure(self) -> Option<ApiError> {
        self.failure
    }

    /// Everything yielded plus everything still pending equals the lazy
    /// yield of the loaded pages: the machine neither drops nor reorders.
    pub open spec fn wf(self) -> bool {
        &&& self.emitted() + self.remaining() == lazy_collect(self.loaded())
        &&& (self.awaiting() ==> self.cursor_view() is None && self.remaining().len() == 0
            && self.failure() is None)
        &&& (self.failure() is Some ==> self.remaining().len() == 0 && self.cursor_view() is None
            && !self.awaiting())
    }

    /// Builds the machine from the outcome of the walk's first request.
    pub fn new(first: Result<Page<T>, ApiError>) -> (p: Self)
        ensures
            p.wf(),
            !p.awaiting(),
            p.emitted() == Seq::<T>::empty(),
            match first {
                Result::Ok(page) => p.loaded() == seq![page.items@]
                    && p.remaining() == page.items@
                    && p.cursor_view() == opt_str_view(page.next)
                    && p.failure() is None,
                Result::Err(e) => p.loaded() == Seq::<Seq<T>>::empty()
                    && p.failure() == Option::Some(e)
                    && p.remaining().len() == 0
                    && p.cursor_view() is None,
            },
    {
        match first {
            Result::Ok(page) => {
                let ghost pitems = page.items@;
                let ghost first_loaded: Seq<Seq<T>> = seq![pitems];
                let Page { items, next } = page;
                let p = LazyPager {
                    rev_batch: reverse_vec(items),
                    cursor: next,
                    awaiting: false,
                    failure: Option::None,
                    emitted: Ghost(Seq::empty()),
                    loaded: Ghost(first_loaded),
                };
                proof {
                    assert(p.rev_batch@.reverse() =~= pitems);
                    assert(seq![pitems].drop_first() =~= Seq::<Seq<T>>::empty());
                    assert(lazy_collect(Seq::<Seq<T>>::empty()) == Seq::<T>::empty());
                    assert(p.emitted() + p.remaining() =~= lazy_collect(p.loaded()));
                }
                p
            },
            Result::Err(e) => {
                let p = LazyPager {
                    rev_batch: Vec::new(),
                    cursor: Option::None,
                    awaiting: false,
                    failure: Option::Some(e),
                    emitted: Ghost(Seq::empty()),
                    loaded: Ghost(Seq::empty()),
                };
                proof {
                    assert(p.remaining() =~= Seq::<T>::empty());
                    assert(p.emitted() + p.remaining() =~= lazy_collect(p.loaded()));
                }
                p
            },
        }
    }

    /// One pull. Yields the next item while the batch lasts; asks for a
    /// fetch when a cursor remains; ends cleanly when none does; and repeats
    /// the terminal error after a failure.
    ///
    /// A batch with no items and a present cursor asks for the fetch rather
    /// than ending: an empty page does not terminate the walk. Only a page
    /// without a cursor does.
    pub fn poll(&mut self) -> (step: LazyStep<T>)
        requires
            old(self).wf(),
            !old(self).awaiting(),
        ensures
            final(self).wf(),
            final(self).loaded() == old(self).loaded(),
            match step {
                LazyStep::Item(t) => old(self).failure() is None
                    && old(self).remaining().len() > 0
                    && t == old(self).remaining()[0]
                    && final(self).emitted() == old(self).emitted().push(t)
                    && final(self).remaining() == old(self).remaining().drop_first()
                    && final(self).cursor_view() == old(self).cursor_view()
                    && final(self).failure() is None
                    && !final(self).awaiting(),
                LazyStep::Fetch(u) => old(self).failure() is None
                    && old(self).remaining().len() == 0
                    && old(self).cursor_view() == Option::Some(u@)
                    && final(self).awaiting()
                    && final(self).emitted() == old(self).emitted(),
                LazyStep::Done => old(self).failure() is None && old(self).remaining().len() == 0
                    && old(self).cursor_view() is None
                    && final(self).emitted() == old(self).emitted()
                    && final(self).remaining().len() == 0
                    && final(self).cursor_view() is None
                    && final(self).failure() is None
                    && !final(self).awaiting(),
                LazyStep::Failed(e) => old(self).failure() == Option::Some(e)
                    && *final(self) == *old(self),
            },
    {
        match self.failure {
            Option::Some(e) => {
                return LazyStep::Failed(e);
            },
            Option::None => {},
        }
        let popped = self.rev_batch.pop();
        match popped {
            Option::Some(t) => {
                let ghost pre = *old(self);
                proof {
                    self.emitted@ = self.emitted@.push(t);
                    assert(pre.rev_batch@.last() == pre.remaining()[0]);
                    assert(self.rev_batch@.reverse() =~= pre.remaining().drop_first());
                    assert(self.emitted() + self.remaining() =~= pre.emitted() + pre.remaining());
                }
                LazyStep::Item(t)
            },
            Option::None => {
                proof {
                    assert(self.remaining() =~= Seq::<T>::empty());
                }
                let cur = self.cursor.take();
                match cur {
                    Option::Some(u) => {
                        self.awaiting = true;
                        LazyStep::Fetch(u)
                    },
                    Option::None => LazyStep::Done,
                }
            },
        }
    }

    /// Hands the machine the outcome of the fetch it asked for.
    pub fn load_page(&mut self, page: Result<Page<T>, ApiError>)
        requires
            old(self).wf(),
            old(self).awaiting(),
        ensures
            final(self).wf(),
            !final(self).awaiting(),
            final(self).emitted() == old(self).emitted(),
            match page {
                Result::Ok(p) => final(self).loaded() == old(self).loaded().push(p.items@)
                    && final(self).remaining() == p.items@
                    && final(self).cursor_view() == opt_str_view(p.next)
                    && final(self).failure() is None,
                Result::Err(e) => final(self).loaded() == old(self).loaded()
                    && final(self).failure() == Option::Some(e)
                    && final(self).remaining().len() == 0
                    && final(self).cursor_view() is None,
            },
    {
        self.awaiting = false;
        match page {
            Result::Ok(p) => {
                let ghost pitems = p.items@;
                let Page { items, next } = p;
                self.rev_batch = reverse_vec(items);
                self.cursor = next;
                proof {
                    self.loaded@ = self.loaded@.push(pitems);
                    lemma_lazy_collect_push(old(self).loaded@, pitems);
                    assert(self.rev_batch@.reverse() =~= pitems);
                    assert(old(self).remaining() =~= Seq::<T>::empty());
                    assert(old(self).emitted() + old(self).remaining() =~= old(self).emitted());
                    assert(self.emitted() + self.remaining() =~= lazy_collect(self.loaded()));
                }
            },
            Result::Err(e) => {
                self.failure = Option::Some(e);
                proof {
                    assert(old(self).remaining() =~= Seq::<T>::empty());
                    assert(self.remaining() =~= Seq::<T>::empty());
                    assert(self.emitted() + self.remaining() =~= lazy_collect(self.loaded()));
                }
            },
        }
    }
}

/// A chained transcript: what one pagination walk's requests returned, in
/// request order. It is the shape a cursor chain forces: only the last
/// outcome may be a failure (the walk stops there), and a page carries a
/// cursor exactly when another page follows.
pub open spec fn transcript_wf<T>(ps: Seq<Result<Page<T>, ApiError>>) -> bool {
    &&& ps.len() > 0
    &&& forall|i: int| 0 <= i < ps.len() - 1 ==> (#[trigger] ps[i]) is Ok
    &&& forall|i: int|
        0 <= i < ps.len() ==> ((#[trigger] ps[i]) is Ok ==> ((ps[i]->Ok_0.next is Some) <==> i + 1
            < ps.len()))
}

/// The batches of the transcript's successful pages, in order.
pub open spec fn ok_batches<T>(ps: Seq<Result<Page<T>, ApiError>>) -> Seq<Seq<T>> {
    (if ps.len() > 0 && ps.last() is Err {
        ps.drop_last()
    } else {
        ps
    }).map_values(|p: Result<Page<T>, ApiError>| p->Ok_0.items@)
}

/// The eager walk over a whole transcript: issues one request per transcript
/// entry (the returned count says exactly how many), stops at the first page
/// without a cursor, and hands back every batch concatenated in page order.
/// A batch with no items and a present cursor continues the walk; a batch
/// with no items and no cursor ends it with whatever was accumulated. On a
/// failed page the whole fetch reports that failure and no partial result.
#[verifier::loop_isolation(false)]
pub fn fetch_all_pages<T>(transcript: Vec<Result<Page<T>, ApiError>>) -> (r: (
    Result<Vec<T>, ApiError>,
    usize,
))
    requires
        transcript_wf(transcript@),
    ensures
        r.1 == transcript@.len(),
        match r.0 {
            Result::Ok(items) => transcript@.last() is Ok && items@ == eager_collect(
                ok_batches(transcript@),
            ),
            Result::Err(e) => transcript@.last() is Err && transcript@.last()->Err_0 == e,
        },
{
    let ghost all = transcript@;
    let ghost batch_of = |p: Result<Page<T>, ApiError>| p->Ok_0.items@;
    let requests_bound = transcript.len();
    proof {
        assert(all.len() == requests_bound);
    }
    let mut transcript = transcript;
    let mut fetcher = EagerFetch::<T>::new();
    let mut count: usize = 0;
    proof {
        assert(fetcher.pages() =~= all.take(0).map_values(batch_of));
    }
    loop
        invariant
            transcript_wf(all),
            count < all.len(),
            all.skip(count as int) == transcript@,
            fetcher.wf(),
            fetcher.pages() == all.take(count as int).map_values(batch_of),
        decreases all.len() - count,
    {
        let entry = transcript.remove(0);
        proof {
            assert(entry == all[count as int]);
            assert(all.skip(count as int).drop_first() =~= all.skip(count + 1));
        }
        count = count + 1;
        match entry {
            Result::Err(e) => {
                proof {
                    assert(count == all.len());
                    assert(all.last() is Err && all.last()->Err_0 == e);
                }
                return (Result::Err(e), count);
            },
            Result::Ok(page) => {
                let Page { items, next } = page;
                fetcher.absorb(items);
                proof {
                    assert(fetcher.pages() =~= all.take(count as int).map_values(batch_of));
                }
                match next {
                    Option::Some(_) => {
                        proof {
                            assert(count < all.len());
                        }
                    },
                    Option::None => {
                        proof {
                            assert(count == all.len());
                            assert(all.take(count as int) =~= all);
                            assert(ok_batches(all) =~= all.map_values(batch_of));
                        }
                        return (Result::Ok(fetcher.into_items()), count);
                    },
                }
            },
        }
    }
}

/// The lazy walk over a whole transcript: pulls the pager to exhaustion,
/// loading the next transcript entry whenever the pager asks for a fetch.
/// It yields every item of every successful page, in order, and reports the
/// failure that ended the walk if one did: the items pulled before a failing
/// page stay valid.
#[verifier::loop_isolation(false)]
pub fn collect_stream<T>(transcript: Vec<Result<Page<T>, ApiError>>) -> (r: (
    Vec<T>,
    usize,
    Option<ApiError>,
))
    requires
        transcript_wf(transcript@),
    ensures
        r.1 == transcript@.len(),
        r.0@ == lazy_collect(ok_batches(transcript@)),
        match r.2 {
            Option::Some(e) => transcript@.last() is Err && transcript@.last()->Err_0 == e,
            Option::None => transcript@.last() is Ok,
        },
{
    let ghost all = transcript@;
    let ghost batch_of = |p: Result<Page<T>, ApiError>| p->Ok_0.items@;
    let requests_bound = transcript.len();
    proof {
        assert(all.len() == requests_bound);
    }
    let mut transcript = transcript;
    let first = transcript.remove(0);
    let mut count: usize = 1;
    let mut pager = LazyPager::<T>::new(first);
    let mut out: Vec<T> = Vec::new();
    proof {
        assert(first == all[0]);
        assert(all.skip(0).drop_first() =~= all.skip(1));
        if all[0] is Ok {
            assert(pager.loaded() =~= all.take(1).map_values(batch_of));
        } else {
            assert(all.len() == 1);
            assert(pager.loaded() =~= all.drop_last().map_values(batch_of));
        }
    }
    loop
        invariant
            transcript_wf(all),
            1 <= count <= all.len(),
            all.skip(count as int) == transcript@,
            pager.wf(),
            !pager.awaiting(),
            out@ == pager.emitted(),
            match pager.failure() {
                Option::None => {
                    &&& all[count - 1] is Ok
                    &&& pager.loaded() == all.take(count as int).map_values(batch_of)
                    &&& (pager.cursor_view() is Some <==> count < all.len())
                },
                Option::Some(e) => {
                    &&& count == all.len()
                    &&& all.last() is Err
                    &&& all.last()->Err_0 == e
                    &&& pager.loaded() == all.drop_last().map_values(batch_of)
                },
            },
        decreases all.len() - count, pager.remaining().len(),
    {
        match pager.poll() {
            LazyStep::Item(t) => {
                out.push(t);
            },
            LazyStep::Fetch(_next_url) => {
                let entry = transcript.remove(0);
                proof {
                    assert(entry == all[count as int]);
                    assert(all.skip(count as int).drop_first() =~= all.skip(count + 1));
                }
                count = count + 1;
                let ghost entry_snapshot = entry;
                pager.load_page(entry);
                proof {
                    match entry_snapshot {
                        Result::Ok(p) => {
                            assert(pager.loaded() =~= all.take(count as int).map_values(batch_of));
                        },
                        Result::Err(_) => {
                            assert(count == all.len());
                            assert(all.take(count - 1) =~= all.drop_last());
                        },
                    }
                }
            },
            LazyStep::Done => {
                proof {
                    assert(count == all.len());
                    assert(all.take(count as int) =~= all);
                    assert(ok_batches(all) =~= all.map_values(batch_of));
                    assert(out@ =~= lazy_collect(pager.loaded()));
                }
                return (out, count, Option::None);
            },
            LazyStep::Failed(e) => {
                proof {
                    assert(ok_batches(all) =~= all.drop_last().map_values(batch_of));
                    assert(out@ =~= lazy_collect(pager.loaded()));
                }
                return (out, count, Option::Some(e));
            },
        }
    }
}

/// The items of `v`, in reverse order.
fn reverse_vec<T>(v: Vec<T>) -> (r: Vec<T>)
    ensures
        r@ == v@.reverse(),
{
    let ghost v0 = v@;
    let mut v = v;
    let mut r: Vec<T> = Vec::new();
    proof {
        assert(v@ + r@.reverse() =~= v0);
    }
    while v.len() > 0
        invariant
            v@ + r@.reverse() == v0,
        decreases v@.len(),
    {
        let ghost rpre = r@;
        let ghost vpre = v@;
        let x = v.pop().unwrap();
        r.push(x);
        proof {
            assert(r@.reverse() =~= seq![x] + rpre.reverse());
            assert(v@ + r@.reverse() =~= vpre + rpre.reverse());
        }
    }
    proof {
        assert(r@.reverse() =~= v0);
        assert(r@ =~= v0.reverse());
    }
    r
}

} // verus!
