//! The paginated fetch engine, and the REST constants around it.
//!
//! The vendor pages long listings: each response carries a batch of items
//! and an optional continuation token, and the next request must present
//! the token the previous response returned.  The engine here turns that
//! protocol into a single consumable sequence.  It owns no transport:
//! a caller drives it, performing one fetch whenever the engine asks for
//! one and handing the result back.
//!
//! The engine's contract, stated over its model and proved below:
//! items come out in page order and within-page order; a new fetch is
//! requested only when the buffer is drained and no other fetch is
//! outstanding, and its token is exactly the one the previous page
//! returned; a page with no items but a token does not end the sequence;
//! after a failed fetch the engine asks for nothing further.

use vstd::prelude::*;
use crate::utils::view_opt_str;

verus! {

/// Header that carries the key identifier.
pub const APCA_API_KEY_ID: &'static str = "APCA-API-KEY-ID";

/// Header that carries the secret key.
pub const APCA_API_SECRET_KEY: &'static str = "APCA-API-SECRET-KEY";

/// Base URL of the live trading API.
pub const LIVE_TRADING_URL: &'static str = "https://api.alpaca.markets";

/// Base URL of the paper trading API.
pub const PAPER_TRADING_URL: &'static str = "https://paper-api.alpaca.markets";

/// A page from a paginated listing: a way to split one response into its
/// items and the token that fetches the next page.
pub trait Paged {
    /// The element type of the listing.
    type Item;

    /// Splits the page into its items and the optional next-page token.
    fn split(self) -> (Vec<Self::Item>, Option<String>);
}

/// One fetched page in plain form: its items, and the token for the page
/// after it (`None` when the vendor has no more data).
pub struct Page<T> {
    /// The items of this page, in the vendor's order.
    pub items: Vec<T>,
    /// The continuation token, absent on the last page.
    pub next_token: Option<String>,
}

impl<T> Paged for Page<T> {
    type Item = T;

    fn split(self) -> (Vec<T>, Option<String>) {
        (self.items, self.next_token)
    }
}

/// The engine's one fetch slot.  There is no second slot: at most one
/// fetch can ever be outstanding.
pub enum FetchSlot {
    /// A fetch with this token should be issued next.
    Scheduled(Option<String>),
    /// A fetch with this token has been handed to the caller and has not
    /// resolved yet.
    InFlight(Option<String>),
    /// The last page carried no token: the sequence ends when the buffer
    /// drains.
    Done,
    /// A fetch failed; the engine asks for nothing further.
    Failed,
}

/// The model of the fetch slot, tokens abstracted to their content.
pub enum SlotModel {
    Scheduled(Option<Seq<char>>),
    InFlight(Option<Seq<char>>),
    Done,
    Failed,
}

/// The model of a fetch slot.
pub open spec fn slot_view(f: FetchSlot) -> SlotModel {
    match f {
        FetchSlot::Scheduled(t) => SlotModel::Scheduled(view_opt_str(t)),
        FetchSlot::InFlight(t) => SlotModel::InFlight(view_opt_str(t)),
        FetchSlot::Done => SlotModel::Done,
        FetchSlot::Failed => SlotModel::Failed,
    }
}

/// What the model of the engine holds: the unconsumed items, and the
/// fetch slot.
pub struct PaginatorModel<T> {
    /// Already-fetched, not-yet-consumed items, in order.
    pub buffer: Seq<T>,
    /// The one fetch slot.
    pub fetch: SlotModel,
}

/// One step's outcome.
pub enum PollStep<T> {
    /// The next item of the sequence.
    Item(T),
    /// No buffered item is left: the caller must perform a fetch with
    /// this token and resolve it.
    Fetch(Option<String>),
    /// The sequence has ended; nothing further will ever come.
    End,
}

/// The model of a step's outcome.
pub enum StepModel<T> {
    Item(T),
    Fetch(Option<Seq<char>>),
    End,
}

/// The model of a step's outcome.
pub open spec fn step_view<T>(s: PollStep<T>) -> StepModel<T> {
    match s {
        PollStep::Item(x) => StepModel::Item(x),
        PollStep::Fetch(t) => StepModel::Fetch(view_opt_str(t)),
        PollStep::End => StepModel::End,
    }
}

/// How one poll transforms the model: pop a buffered item if there is
/// one; otherwise hand out the scheduled fetch, marking it in flight;
/// otherwise the sequence has ended.
pub open spec fn spec_poll<T>(m: PaginatorModel<T>) -> (StepModel<T>, PaginatorModel<T>)
    recommends
        !(m.fetch is InFlight),
{
    if m.buffer.len() > 0 {
        (StepModel::Item(m.buffer[0]), PaginatorModel { buffer: m.buffer.drop_first(), ..m })
    } else {
        match m.fetch {
            SlotModel::Scheduled(t) => (
                StepModel::Fetch(t),
                PaginatorModel { fetch: SlotModel::InFlight(t), ..m },
            ),
            _ => (StepModel::End, m),
        }
    }
}

/// How a successful fetch transforms the model: the page's items become
/// the buffer, and its token schedules the next fetch — or, absent,
/// marks the listing complete.
pub open spec fn spec_resolve_ok<T>(
    m: PaginatorModel<T>,
    items: Seq<T>,
    next: Option<Seq<char>>,
) -> PaginatorModel<T>
    recommends
        m.fetch is InFlight,
        m.buffer.len() == 0,
{
    PaginatorModel {
        buffer: items,
        fetch: match next {
            Some(t) => SlotModel::Scheduled(Some(t)),
            None => SlotModel::Done,
        },
    }
}

/// How a failed fetch transforms the model: the slot is spent, and the
/// engine will never ask for another fetch.
pub open spec fn spec_resolve_err<T>(m: PaginatorModel<T>) -> PaginatorModel<T>
    recommends
        m.fetch is InFlight,
{
    PaginatorModel { fetch: SlotModel::Failed, ..m }
}

/// The paginated fetch engine.  See the module description for its
/// protocol.
pub struct Paginator<T> {
    buffer: Vec<T>,
    fetch: FetchSlot,
}

impl<T> View for Paginator<T> {
    type V = PaginatorModel<T>;

    closed spec fn view(&self) -> PaginatorModel<T> {
        PaginatorModel { buffer: self.buffer@, fetch: slot_view(self.fetch) }
    }
}

impl<T> Paginator<T> {
    /// A fresh engine: empty buffer, with the first fetch — the one with
    /// no token — already scheduled.  No fetch is performed here; the
    /// first error, if any, surfaces at the first resolution.
    pub fn new() -> (r: Paginator<T>)
        ensures
            r@.buffer.len() == 0,
            r@.fetch == SlotModel::Scheduled(None::<Seq<char>>),
    {
        Paginator { buffer: Vec::new(), fetch: FetchSlot::Scheduled(None) }
    }

    /// One consumption step, as [`spec_poll`] describes it.  May not be
    /// called while a fetch is outstanding: resolve it first.
    pub fn poll(&mut self) -> (r: PollStep<T>)
        requires
            !(old(self)@.fetch is InFlight),
        ensures
            (step_view(r), final(self)@) == spec_poll(old(self)@),
    {
        if self.buffer.len() > 0 {
            let x = self.buffer.remove(0);
            proof {
                assert(old(self)@.buffer.remove(0) =~= old(self)@.buffer.drop_first());
            }
            PollStep::Item(x)
        } else {
            let tok: Option<String> = match &self.fetch {
                FetchSlot::Scheduled(t) => clone_token(t),
                _ => {
                    return PollStep::End;
                },
            };
            let held = clone_token(&tok);
            self.fetch = FetchSlot::InFlight(held);
            PollStep::Fetch(tok)
        }
    }

    /// Resolves the outstanding fetch with the page it produced, as
    /// [`spec_resolve_ok`] describes it.
    pub fn resolve_ok(&mut self, items: Vec<T>, next_token: Option<String>)
        requires
            old(self)@.fetch is InFlight,
            old(self)@.buffer.len() == 0,
        ensures
            final(self)@ == spec_resolve_ok(old(self)@, items@, view_opt_str(next_token)),
    {
        self.buffer = items;
        self.fetch = match next_token {
            Some(t) => FetchSlot::Scheduled(Some(t)),
            None => FetchSlot::Done,
        };
    }

    /// Resolves the outstanding fetch as failed, as [`spec_resolve_err`]
    /// describes it.  The caller keeps the error; the engine only
    /// records that no further fetch may be asked for.
    pub fn resolve_err(&mut self)
        requires
            old(self)@.fetch is InFlight,
        ensures
            final(self)@ == spec_resolve_err(old(self)@),
    {
        self.fetch = FetchSlot::Failed;
    }
}

/// An owned copy of a token.
fn clone_token(t: &Option<String>) -> (r: Option<String>)
    ensures
        view_opt_str(r) == view_opt_str(*t),
{
    match t {
        Some(s) => Some(s.clone()),
        None => None,
    }
}

/// A fetch is requested only from a scheduled slot, and requesting it
/// marks the slot in flight, so no second fetch can be requested before
/// the first resolves — resolution being the only way out of the
/// in-flight state.
pub proof fn lemma_single_outstanding_fetch<T>(m: PaginatorModel<T>)
    ensures
        spec_poll(m).0 is Fetch ==> m.fetch is Scheduled && spec_poll(m).1.fetch is InFlight,
        spec_resolve_ok(m, Seq::<T>::empty(), None::<Seq<char>>).fetch !is InFlight,
        spec_resolve_err(m).fetch !is InFlight,
{
}

/// A page with no items but a token does not end the sequence: the very
/// next poll requests the follow-up fetch with that token.
pub proof fn lemma_empty_page_continues<T>(m: PaginatorModel<T>, tok: Seq<char>)
    requires
        m.fetch is InFlight,
        m.buffer.len() == 0,
    ensures
        ({
            let after = spec_resolve_ok(m, Seq::<T>::empty(), Some(tok));
            &&& spec_poll(after).0 == StepModel::<T>::Fetch(Some(tok))
            &&& !(spec_poll(after).0 is End)
        }),
{
}

/// A failed fetch is terminal, and not retried: the items already
/// buffered stay consumable, and once the buffer drains every further
/// poll answers `End` and changes nothing — no further fetch is ever
/// requested.
pub proof fn lemma_error_is_terminal<T>(m: PaginatorModel<T>)
    requires
        m.fetch is InFlight,
    ensures
        spec_resolve_err(m).buffer == m.buffer,
        spec_resolve_err(m).fetch == SlotModel::Failed,
        forall|f: PaginatorModel<T>|
            f.fetch == SlotModel::Failed && f.buffer.len() == 0 ==> #[trigger] spec_poll(f) == (
                StepModel::<T>::End,
                f,
            ),
{
}

/// The items of `pages`, page order first, within-page order second.
pub open spec fn flatten_pages<T>(pages: Seq<Page<T>>) -> Seq<T>
    decreases pages.len(),
{
    if pages.len() == 0 {
        Seq::empty()
    } else {
        pages[0].items@ + flatten_pages(pages.drop_first())
    }
}

/// One more page appends its items.
pub proof fn lemma_flatten_snoc<T>(pages: Seq<Page<T>>, k: int)
    requires
        0 <= k < pages.len(),
    ensures
        flatten_pages(pages.subrange(0, k + 1)) == flatten_pages(pages.subrange(0, k))
            + pages[k].items@,
    decreases k,
{
    let a = pages.subrange(0, k + 1);
    let b = pages.subrange(0, k);
    if k == 0 {
        assert(a.drop_first() =~= Seq::<Page<T>>::empty());
        assert(a[0] == pages[0]);
        assert(b =~= Seq::<Page<T>>::empty());
        assert(flatten_pages(a) =~= flatten_pages(b) + pages[0].items@);
    } else {
        lemma_flatten_snoc(pages.drop_first(), k - 1);
        assert(a.drop_first() =~= pages.drop_first().subrange(0, k));
        assert(b.drop_first() =~= pages.drop_first().subrange(0, k - 1));
        assert(a[0] == pages[0]);
        assert(pages.drop_first()[k - 1] == pages[k]);
        assert(flatten_pages(a) == pages[0].items@ + flatten_pages(
            pages.drop_first().subrange(0, k),
        ));
        assert(flatten_pages(b) == pages[0].items@ + flatten_pages(
            pages.drop_first().subrange(0, k - 1),
        ));
        assert(pages[0].items@ + (flatten_pages(pages.drop_first().subrange(0, k - 1))
            + pages[k].items@) =~= (pages[0].items@ + flatten_pages(
            pages.drop_first().subrange(0, k - 1),
        )) + pages[k].items@);
    }
}

/// The token of a page, by content.
pub open spec fn page_token<T>(p: Page<T>) -> Option<Seq<char>> {
    view_opt_str(p.next_token)
}

/// A proper scripted listing: at least one page, every page but the last
/// carries a token, and the last does not.
pub open spec fn chain_ok<T>(pages: Seq<Page<T>>) -> bool {
    &&& pages.len() > 0
    &&& forall|k: int| 0 <= k < pages.len() - 1 ==> page_token(#[trigger] pages[k]) is Some
    &&& page_token(pages.last()) is None
}

/// The tokens a full run requests, in order: none for the first page,
/// then each page's own token for the page after it.
pub open spec fn requested_tokens<T>(pages: Seq<Page<T>>, upto: int) -> Seq<Option<Seq<char>>> {
    Seq::new(
        upto as nat,
        |i: int|
            if i == 0 {
                None
            } else {
                page_token(pages[i - 1])
            },
    )
}

/// The tokens of a request log, by content.
pub open spec fn tokens_view(v: Seq<Option<String>>) -> Seq<Option<Seq<char>>> {
    Seq::new(v.len(), |i: int| view_opt_str(v[i]))
}

/// Consumes the whole engine against a scripted listing, the way a
/// transport-owning caller would, and proves the two run-level
/// guarantees: the run yields exactly the pages' items, page order
/// first and within-page order second, before ending; and it performs
/// exactly one fetch per page, in strict token-chain order — none,
/// then each page's token.
pub fn fetch_all<T>(pages: Vec<Page<T>>) -> (r: (Vec<T>, Vec<Option<String>>))
    requires
        chain_ok(pages@),
    ensures
        r.0@ == flatten_pages(pages@),
        r.1@.len() == pages@.len(),
        tokens_view(r.1@) == requested_tokens(pages@, pages@.len() as int),
{
    let ghost orig = pages@;
    let total = pages.len();
    let mut script = pages;
    let mut pag: Paginator<T> = Paginator::new();
    let mut out: Vec<T> = Vec::new();
    let mut reqs: Vec<Option<String>> = Vec::new();
    let mut used: usize = 0;
    loop
        invariant
            chain_ok(orig),
            total == orig.len(),
            used <= total,
            script@ =~= orig.subrange(used as int, total as int),
            out@ + pag@.buffer == flatten_pages(orig.subrange(0, used as int)),
            reqs@.len() == used,
            tokens_view(reqs@) == requested_tokens(orig, used as int),
            !(pag@.fetch is InFlight),
            !(pag@.fetch is Failed),
            used == 0 ==> pag@.fetch == SlotModel::Scheduled(None::<Seq<char>>) && out@.len() == 0,
            0 < used < total ==> pag@.fetch == SlotModel::Scheduled(page_token(orig[used - 1])),
            used == total ==> pag@.fetch == SlotModel::Done,
        ensures
            used == total,
            pag@.buffer.len() == 0,
            out@ == flatten_pages(orig.subrange(0, used as int)),
            reqs@.len() == used,
            tokens_view(reqs@) == requested_tokens(orig, used as int),
        decreases script@.len(), pag@.buffer.len(),
    {
        let ghost pre = pag@;
        match pag.poll() {
            PollStep::Item(x) => {
                proof {
                    assert(out@.push(pre.buffer[0]) + pre.buffer.drop_first() =~= out@
                        + pre.buffer);
                }
                out.push(x);
            },
            PollStep::Fetch(t) => {
                // The engine asks for a fetch only with the buffer empty
                // and a scheduled slot, so a page of the script is due.
                proof {
                    if used == total {
                        assert(pre.fetch == SlotModel::Done);
                        assert(false);
                    }
                    assert(script@.len() > 0);
                }
                let p = script.remove(0);
                proof {
                    assert(orig.subrange(used as int, total as int)[0] == orig[used as int]);
                    assert(orig.subrange(used as int, total as int).drop_first() =~= orig.subrange(
                        used + 1,
                        total as int,
                    ));
                }
                let ghost old_reqs = reqs@;
                let ghost tview = view_opt_str(t);
                reqs.push(t);
                pag.resolve_ok(p.items, p.next_token);
                used = used + 1;
                proof {
                    lemma_flatten_snoc(orig, used - 1);
                    assert(out@ + flatten_pages(orig.subrange(0, used - 1)).skip(out@.len() as int)
                        =~= flatten_pages(orig.subrange(0, used - 1)));
                    // The buffer was empty before the fetch, so everything
                    // flattened so far sits in `out`.
                    assert(out@ =~= flatten_pages(orig.subrange(0, used - 1)));
                    assert(out@ + pag@.buffer =~= flatten_pages(orig.subrange(0, used as int)));
                    let expect = requested_tokens(orig, used as int);
                    assert forall|i: int|
                        0 <= i < reqs@.len() implies tokens_view(reqs@)[i] == expect[i] by {
                        if i < reqs@.len() - 1 {
                            assert(reqs@[i] == old_reqs[i]);
                            assert(tokens_view(old_reqs)[i] == requested_tokens(
                                orig,
                                (used - 1) as int,
                            )[i]);
                        } else {
                            assert(reqs@[i] == old_reqs.push(reqs@[i as int])[i]);
                            assert(tokens_view(reqs@)[i] == tview);
                        }
                    }
                    assert(tokens_view(reqs@) =~= requested_tokens(orig, used as int));
                    if used < total {
                        assert(page_token(orig[used - 1]) is Some);
                    }
                }
            },
            PollStep::End => {
                proof {
                    if used < total {
                        assert(false);
                    }
                    assert(out@ + pag@.buffer =~= out@);
                    assert(out@ =~= flatten_pages(orig.subrange(0, used as int)));
                }
                break ;
            },
        }
    }
    proof {
        assert(orig.subrange(0, total as int) =~= orig);
    }
    (out, reqs)
}

} // verus!
