use vstd::prelude::*;

use crate::models::locate::{locate_model_of, request_model_of, LocateRequestView, LocateView};
use crate::models::quote::clone_sources;
use crate::models::{
    LocateModel, LocateRequestModel, LocatorQuoteResponse, QuoteResponseStatusEnum,
};
use crate::services::history::{at_instant, newest_first, record_views};
use crate::services::locate_requests_cache::{kept_time, LocateRequestsCache};
use crate::services::locates_cache::LocatesCache;
use crate::text::decimal_text;
use crate::timestamp::{format_iso8601, iso8601_text, iso8601_writable, Timestamp};

verus! {

/// How many quote responses one page of the restore asks the reporting service for.
pub const RESTORE_DATA_TAKE: i32 = 2_000;

/// Statuses whose responses are kept as locate requests.
pub open spec fn is_request_status(status: QuoteResponseStatusEnum) -> bool {
    match status {
        QuoteResponseStatusEnum::WaitingAcceptance
        | QuoteResponseStatusEnum::AutoAccepted
        | QuoteResponseStatusEnum::AutoRejected
        | QuoteResponseStatusEnum::RejectedDuplicate
        | QuoteResponseStatusEnum::RejectedBadRequest
        | QuoteResponseStatusEnum::NoInventory => true,
        _ => false,
    }
}

/// Statuses whose responses are kept as locates.
pub open spec fn is_locate_status(status: QuoteResponseStatusEnum) -> bool {
    match status {
        QuoteResponseStatusEnum::Cancelled
        | QuoteResponseStatusEnum::Expired
        | QuoteResponseStatusEnum::Failed
        | QuoteResponseStatusEnum::RejectedBadRequest
        | QuoteResponseStatusEnum::RejectedDuplicate
        | QuoteResponseStatusEnum::Partial
        | QuoteResponseStatusEnum::Filled
        | QuoteResponseStatusEnum::NoInventory
        | QuoteResponseStatusEnum::AutoRejected => true,
        _ => false,
    }
}

fn request_status(status: QuoteResponseStatusEnum) -> (r: bool)
    ensures
        r == is_request_status(status),
{
    match status {
        QuoteResponseStatusEnum::WaitingAcceptance
        | QuoteResponseStatusEnum::AutoAccepted
        | QuoteResponseStatusEnum::AutoRejected
        | QuoteResponseStatusEnum::RejectedDuplicate
        | QuoteResponseStatusEnum::RejectedBadRequest
        | QuoteResponseStatusEnum::NoInventory => true,
        _ => false,
    }
}

fn locate_status(status: QuoteResponseStatusEnum) -> (r: bool)
    ensures
        r == is_locate_status(status),
{
    match status {
        QuoteResponseStatusEnum::Cancelled
        | QuoteResponseStatusEnum::Expired
        | QuoteResponseStatusEnum::Failed
        | QuoteResponseStatusEnum::RejectedBadRequest
        | QuoteResponseStatusEnum::RejectedDuplicate
        | QuoteResponseStatusEnum::Partial
        | QuoteResponseStatusEnum::Filled
        | QuoteResponseStatusEnum::NoInventory
        | QuoteResponseStatusEnum::AutoRejected => true,
        _ => false,
    }
}

/// `a` and `b` hold the same response.
pub open spec fn same_response(a: LocatorQuoteResponse, b: LocatorQuoteResponse) -> bool {
    &&& a.id == b.id
    &&& a.firm_id == b.firm_id
    &&& a.account_id == b.account_id
    &&& a.symbol == b.symbol
    &&& a.status == b.status
    &&& a.time == b.time
    &&& a.error_message == b.error_message
    &&& a.req_qty == b.req_qty
    &&& a.fill_qty == b.fill_qty
    &&& a.price == b.price
    &&& a.tz_price == b.tz_price
    &&& a.source == b.source
    &&& a.sources@ == b.sources@
}

/// Copies a quote response.
pub fn clone_response(r: &LocatorQuoteResponse) -> (c: LocatorQuoteResponse)
    ensures
        same_response(c, *r),
{
    LocatorQuoteResponse {
        id: r.id.clone(),
        firm_id: r.firm_id.clone(),
        account_id: r.account_id.clone(),
        symbol: r.symbol.clone(),
        status: r.status,
        time: r.time,
        error_message: crate::models::locate::clone_optional_string(&r.error_message),
        req_qty: r.req_qty,
        fill_qty: r.fill_qty,
        price: r.price,
        tz_price: r.tz_price,
        source: r.source.clone(),
        sources: clone_sources(&r.sources),
    }
}

/// Files a quote response: as a locate request when its status is one of a request, as a
/// locate when its status is one of a locate (some statuses are both), and returns what
/// it filed.
pub fn handle(
    response: LocatorQuoteResponse,
    locates_requests_cache: &mut LocateRequestsCache,
    locates_cache: &mut LocatesCache,
) -> (r: (Option<LocateRequestModel>, Option<LocateModel>))
    requires
        old(locates_requests_cache).wf(),
    ensures
        final(locates_requests_cache).wf(),
        is_request_status(response.status) ==> {
            &&& r.0 is Some
            &&& r.0->0@ == request_model_of(response, kept_time(old(locates_requests_cache)@, response))
            &&& final(locates_requests_cache)@ == old(locates_requests_cache)@.insert(response.id@, r.0->0@)
        },
        !is_request_status(response.status) ==> {
            &&& r.0 is None
            &&& final(locates_requests_cache)@ == old(locates_requests_cache)@
        },
        is_locate_status(response.status) ==> {
            &&& r.1 is Some
            &&& r.1->0@ == locate_model_of(response)
            &&& final(locates_cache)@ == old(locates_cache)@.push(r.1->0@)
        },
        !is_locate_status(response.status) ==> {
            &&& r.1 is None
            &&& final(locates_cache)@ == old(locates_cache)@
        },
{
    let response_status = response.status;
    let locate_request = if request_status(response_status) {
        let copy = clone_response(&response);
        let m = locates_requests_cache.memorize(copy);
        Some(m)
    } else {
        None
    };
    let locate = if locate_status(response_status) {
        let copy = clone_response(&response);
        Some(locates_cache.memorize(copy))
    } else {
        None
    };
    (locate_request, locate)
}

/// The caches of locate requests and locates that quote responses are filed into.
pub struct MessageHandler {
    pub locates_requests_cache: LocateRequestsCache,
    pub locates_cache: LocatesCache,
    /// What each look at the restore's stop token said, in order (`true`: stopped).
    pub stop_checks: Ghost<Seq<bool>>,
}

impl MessageHandler {
    pub open spec fn wf(&self) -> bool {
        self.locates_requests_cache.wf()
    }

    /// What each look at the restore's stop token said so far, in order (`true`: stopped).
    pub open spec fn stop_checks(&self) -> Seq<bool> {
        self.stop_checks@
    }

    pub fn new() -> (r: Self)
        ensures
            r.wf(),
            r.locates_requests_cache@ == Map::<Seq<char>, LocateRequestView>::empty(),
            r.locates_cache@ == Seq::<LocateView>::empty(),
            r.stop_checks() == Seq::<bool>::empty(),
    {
        MessageHandler {
            locates_requests_cache: LocateRequestsCache::new(),
            locates_cache: LocatesCache::new(),
            stop_checks: Ghost(Seq::empty()),
        }
    }

    /// The locate requests, newest first, each once.
    pub fn get_locate_requests_history(&self) -> (r: Vec<LocateRequestModel>)
        requires
            self.wf(),
        ensures
            newest_first::<LocateRequestModel>(record_views(r@)),
            forall|i: int| 0 <= i < r@.len() ==> self.locates_requests_cache@.contains_key(
                #[trigger] r@[i]@.id,
            ) && self.locates_requests_cache@[r@[i]@.id] == r@[i]@,
            forall|i: int, j: int| 0 <= i < j < r@.len() ==> r@[i]@.id != r@[j]@.id,
            forall|k: Seq<char>| self.locates_requests_cache@.contains_key(k) ==> exists|i: int|
                0 <= i < r@.len() && #[trigger] r@[i]@.id == k,
    {
        self.locates_requests_cache.get_history_records()
    }

    /// The locates, newest first; those of the same instant in the order they came in.
    pub fn get_locates_history(&mut self) -> (r: Vec<LocateModel>)
        requires
            old(self).wf(),
        ensures
            final(self).wf(),
            final(self).locates_requests_cache == old(self).locates_requests_cache,
            newest_first::<LocateModel>(final(self).locates_cache@),
            final(self).locates_cache@.to_multiset() == old(self).locates_cache@.to_multiset(),
            forall|t: int| #[trigger] at_instant::<LocateModel>(final(self).locates_cache@, t)
                == at_instant::<LocateModel>(old(self).locates_cache@, t),
            record_views(r@) == final(self).locates_cache@,
    {
        self.locates_cache.get_history_records()
    }

    /// Files a live quote response (see [`handle`]); the caller sends what was filed to
    /// the clients.
    pub fn handler_quote_response(&mut self, quote_response: LocatorQuoteResponse) -> (r: (
        Option<LocateRequestModel>,
        Option<LocateModel>,
    ))
        requires
            old(self).wf(),
        ensures
            final(self).wf(),
            is_request_status(quote_response.status) ==> {
                &&& r.0 is Some
                &&& r.0->0@ == request_model_of(
                    quote_response,
                    kept_time(old(self).locates_requests_cache@, quote_response),
                )
                &&& final(self).locates_requests_cache@ == old(
                    self,
                ).locates_requests_cache@.insert(quote_response.id@, r.0->0@)
            },
            !is_request_status(quote_response.status) ==> {
                &&& r.0 is None
                &&& final(self).locates_requests_cache@ == old(self).locates_requests_cache@
            },
            is_locate_status(quote_response.status) ==> {
                &&& r.1 is Some
                &&& r.1->0@ == locate_model_of(quote_response)
                &&& final(self).locates_cache@ == old(self).locates_cache@.push(r.1->0@)
            },
            !is_locate_status(quote_response.status) ==> {
                &&& r.1 is None
                &&& final(self).locates_cache@ == old(self).locates_cache@
            },
            final(self).stop_checks() == old(self).stop_checks(),
    {
        handle(quote_response, &mut self.locates_requests_cache, &mut self.locates_cache)
    }
}

/// What one page of restored quote responses filed: the locate requests and the locates,
/// in the order of the responses.
pub struct HandledResponses {
    pub locate_requests: Vec<LocateRequestModel>,
    pub locates: Vec<LocateModel>,
}

impl HandledResponses {
    pub fn new() -> (r: Self)
        ensures
            r.locate_requests@.len() == 0,
            r.locates@.len() == 0,
    {
        HandledResponses { locate_requests: Vec::new(), locates: Vec::new() }
    }

    /// Adds what filing one response gave.
    pub fn add(&mut self, handled: (Option<LocateRequestModel>, Option<LocateModel>))
        ensures
            final(self).locate_requests@ == (match handled.0 {
                Some(m) => old(self).locate_requests@.push(m),
                None => old(self).locate_requests@,
            }),
            final(self).locates@ == (match handled.1 {
                Some(m) => old(self).locates@.push(m),
                None => old(self).locates@,
            }),
    {
        let (locate_request, locate) = handled;
        if let Some(locate_request) = locate_request {
            self.locate_requests.push(locate_request);
        }
        if let Some(locate) = locate {
            self.locates.push(locate);
        }
    }
}

/// The cancellation token of tokio-util that stops the restore.
#[verifier::external_type_specification]
#[verifier::external_body]
pub struct ExCancellationToken(tokio_util::sync::CancellationToken);

/// Calls `CancellationToken::is_cancelled` of tokio-util: whether the restore has been
/// stopped. Another task may cancel the token at any moment, so nothing is stated of the
/// result.
#[verifier::external_body]
fn stop_requested(token: &tokio_util::sync::CancellationToken) -> (r: bool) {
    token.is_cancelled()
}

/// The locate requests cache after filing `responses`, one after the other, into `cache`.
pub open spec fn filed_requests(
    cache: Map<Seq<char>, LocateRequestView>,
    responses: Seq<LocatorQuoteResponse>,
) -> Map<Seq<char>, LocateRequestView>
    decreases responses.len(),
{
    if responses.len() == 0 {
        cache
    } else {
        let before = filed_requests(cache, responses.drop_last());
        let x = responses.last();
        if is_request_status(x.status) {
            before.insert(x.id@, request_model_of(x, kept_time(before, x)))
        } else {
            before
        }
    }
}

/// The locate requests that filing `responses` into `cache` gives, in order.
pub open spec fn page_requests(
    cache: Map<Seq<char>, LocateRequestView>,
    responses: Seq<LocatorQuoteResponse>,
) -> Seq<LocateRequestView>
    decreases responses.len(),
{
    if responses.len() == 0 {
        Seq::empty()
    } else {
        let earlier = page_requests(cache, responses.drop_last());
        let before = filed_requests(cache, responses.drop_last());
        let x = responses.last();
        if is_request_status(x.status) {
            earlier.push(request_model_of(x, kept_time(before, x)))
        } else {
            earlier
        }
    }
}

/// The locates that filing `responses` gives, in order.
pub open spec fn page_locates(responses: Seq<LocatorQuoteResponse>) -> Seq<LocateView>
    decreases responses.len(),
{
    if responses.len() == 0 {
        Seq::empty()
    } else {
        let earlier = page_locates(responses.drop_last());
        let x = responses.last();
        if is_locate_status(x.status) {
            earlier.push(locate_model_of(x))
        } else {
            earlier
        }
    }
}

/// Filing one more response after `done` is filing it into what filing `done` left.
proof fn lemma_file_one_more(
    cache: Map<Seq<char>, LocateRequestView>,
    done: Seq<LocatorQuoteResponse>,
    x: LocatorQuoteResponse,
)
    ensures
        filed_requests(cache, done.push(x)) == filed_requests(
            filed_requests(cache, done),
            seq![x],
        ),
        page_requests(cache, done.push(x)) == page_requests(cache, done) + page_requests(
            filed_requests(cache, done),
            seq![x],
        ),
        page_locates(done.push(x)) == page_locates(done) + page_locates(seq![x]),
{
    let one = seq![x];
    assert(done.push(x).drop_last() =~= done);
    assert(one.drop_last() =~= Seq::<LocatorQuoteResponse>::empty());
    let c = filed_requests(cache, done);
    assert(filed_requests(c, one.drop_last()) == c);
    assert(page_requests(c, one.drop_last()) == Seq::<LocateRequestView>::empty());
    assert(page_locates(one.drop_last()) == Seq::<LocateView>::empty());
    assert(page_requests(cache, done.push(x)) =~= page_requests(cache, done) + page_requests(c, one));
    assert(page_locates(done.push(x)) =~= page_locates(done) + page_locates(one));
}

/// The batch of a page that goes out to the clients: none once the restore was stopped,
/// else the whole batch.
pub fn batch_to_send(stopped: bool, batch: HandledResponses) -> (r: Option<HandledResponses>)
    ensures
        stopped ==> r is None,
        !stopped ==> r == Some(batch),
{
    if stopped {
        None
    } else {
        Some(batch)
    }
}

impl MessageHandler {
    /// One step of filing a page: when the restore was stopped, nothing changes and `true`
    /// comes back; otherwise `response` is filed (as [`Self::handler_quote_response`] files
    /// it), what was filed is added to `batch`, and `false` comes back.
    pub fn file_unless_stopped(
        &mut self,
        stopped: bool,
        response: LocatorQuoteResponse,
        batch: &mut HandledResponses,
    ) -> (r: bool)
        requires
            old(self).wf(),
        ensures
            final(self).wf(),
            r == stopped,
            final(self).stop_checks() == old(self).stop_checks(),
            stopped ==> *final(self) == *old(self) && *final(batch) == *old(batch),
            !stopped ==> {
                &&& final(self).locates_requests_cache@ == filed_requests(
                    old(self).locates_requests_cache@,
                    seq![response],
                )
                &&& final(self).locates_cache@ == old(self).locates_cache@ + page_locates(
                    seq![response],
                )
                &&& record_views(final(batch).locate_requests@) == record_views(
                    old(batch).locate_requests@,
                ) + page_requests(old(self).locates_requests_cache@, seq![response])
                &&& record_views(final(batch).locates@) == record_views(old(batch).locates@)
                    + page_locates(seq![response])
            },
    {
        if stopped {
            return true;
        }
        let ghost one = seq![response];
        let ghost msg = response;
        let ghost requests_before = self.locates_requests_cache@;
        let ghost batch_requests_before = batch.locate_requests@;
        let ghost batch_locates_before = batch.locates@;
        let handled = self.handler_quote_response(response);
        batch.add(handled);
        proof {
            assert(one.drop_last() =~= Seq::<LocatorQuoteResponse>::empty());
            assert(one.last() == msg);
            assert(filed_requests(requests_before, one.drop_last()) == requests_before);
            assert(page_requests(requests_before, one.drop_last()) == Seq::<LocateRequestView>::empty());
            assert(page_locates(one.drop_last()) == Seq::<LocateView>::empty());
            if is_locate_status(msg.status) {
                assert(page_locates(one) =~= seq![locate_model_of(msg)]);
                assert(record_views(batch.locates@) =~= record_views(batch_locates_before)
                    + page_locates(one));
            } else {
                assert(page_locates(one) =~= Seq::<LocateView>::empty());
                assert(record_views(batch.locates@) =~= record_views(batch_locates_before)
                    + page_locates(one));
            }
            if is_request_status(msg.status) {
                assert(page_requests(requests_before, one) =~= seq![
                    request_model_of(msg, kept_time(requests_before, msg)),
                ]);
                assert(record_views(batch.locate_requests@) =~= record_views(batch_requests_before)
                    + page_requests(requests_before, one));
            } else {
                assert(page_requests(requests_before, one) =~= Seq::<LocateRequestView>::empty());
                assert(record_views(batch.locate_requests@) =~= record_views(batch_requests_before)
                    + page_requests(requests_before, one));
            }
        }
        false
    }

    /// Looks at the restore's stop token and records what it said.
    fn observe_stop(&mut self, stop: &tokio_util::sync::CancellationToken) -> (r: bool)
        ensures
            final(self).stop_checks() == old(self).stop_checks().push(r),
            final(self).locates_requests_cache == old(self).locates_requests_cache,
            final(self).locates_cache == old(self).locates_cache,
    {
        let r = stop_requested(stop);
        self.stop_checks = Ghost(self.stop_checks@.push(r));
        r
    }

    /// Files one page of restored quote responses, in order, until the restore is stopped.
    /// Returns how many were filed and, when the whole page was filed and the restore was
    /// not stopped, the batch of what was filed, to be sent to the clients. Each step and
    /// the final decision go through [`Self::file_unless_stopped`] and [`batch_to_send`].
    pub fn handle_responses(
        &mut self,
        stop: &tokio_util::sync::CancellationToken,
        responses: Vec<LocatorQuoteResponse>,
    ) -> (r: (usize, Option<HandledResponses>))
        requires
            old(self).wf(),
        ensures
            final(self).wf(),
            r.0 <= responses@.len(),
            final(self).locates_requests_cache@ == filed_requests(
                old(self).locates_requests_cache@,
                responses@.take(r.0 as int),
            ),
            final(self).locates_cache@ == old(self).locates_cache@ + page_locates(
                responses@.take(r.0 as int),
            ),
            r.0 < responses@.len() ==> r.1 is None,
            old(self).stop_checks().len() < final(self).stop_checks().len(),
            final(self).stop_checks().take(old(self).stop_checks().len() as int) == old(
                self,
            ).stop_checks(),
            forall|i: int|
                old(self).stop_checks().len() <= i < final(self).stop_checks().len() - 1
                    ==> !#[trigger] final(self).stop_checks()[i],
            r.0 == final(self).stop_checks().len() - old(self).stop_checks().len() - 1,
            r.1 is Some <==> !final(self).stop_checks().last(),
            r.1 is Some ==> {
                &&& r.0 == responses@.len()
                &&& record_views(r.1->0.locate_requests@) == page_requests(
                    old(self).locates_requests_cache@,
                    responses@,
                )
                &&& record_views(r.1->0.locates@) == page_locates(responses@)
            },
    {
        let n = responses.len();
        let mut rest = responses;
        let mut batch = HandledResponses::new();
        let mut count: usize = 0;
        let mut stopped = false;
        let ghost all = responses@;
        let ghost requests0 = self.locates_requests_cache@;
        let ghost locates0 = self.locates_cache@;
        let ghost checks0 = self.stop_checks();
        assert(all.take(0) =~= Seq::<LocatorQuoteResponse>::empty());
        assert(record_views(batch.locate_requests@) =~= Seq::<LocateRequestView>::empty());
        assert(record_views(batch.locates@) =~= Seq::<LocateView>::empty());
        assert(locates0 + Seq::<LocateView>::empty() =~= locates0);
        while count < n
            invariant_except_break
                rest@ == all.skip(count as int),
                !stopped,
                self.stop_checks().len() == checks0.len() + count,
                forall|i: int| checks0.len() <= i < self.stop_checks().len()
                    ==> !#[trigger] self.stop_checks()[i],
            invariant
                n == all.len(),
                count <= n,
                self.wf(),
                self.stop_checks().take(checks0.len() as int) == checks0,
                self.locates_requests_cache@ == filed_requests(requests0, all.take(count as int)),
                self.locates_cache@ == locates0 + page_locates(all.take(count as int)),
                record_views(batch.locate_requests@) == page_requests(
                    requests0,
                    all.take(count as int),
                ),
                record_views(batch.locates@) == page_locates(all.take(count as int)),
            ensures
                count <= n,
                stopped || count == n,
                self.wf(),
                self.stop_checks().take(checks0.len() as int) == checks0,
                forall|i: int| checks0.len() <= i < self.stop_checks().len() - 1
                    ==> !#[trigger] self.stop_checks()[i],
                !stopped ==> self.stop_checks().len() == checks0.len() + count,
                !stopped ==> forall|i: int| checks0.len() <= i < self.stop_checks().len()
                    ==> !#[trigger] self.stop_checks()[i],
                stopped ==> self.stop_checks().len() == checks0.len() + count + 1
                    && self.stop_checks().last(),
                self.locates_requests_cache@ == filed_requests(requests0, all.take(count as int)),
                self.locates_cache@ == locates0 + page_locates(all.take(count as int)),
                record_views(batch.locate_requests@) == page_requests(
                    requests0,
                    all.take(count as int),
                ),
                record_views(batch.locates@) == page_locates(all.take(count as int)),
            decreases n - count,
        {
            let ghost done = all.take(count as int);
            let response = rest.remove(0);
            assert(response == all[count as int]);
            proof {
                assert(all.take(count + 1) =~= done.push(response));
                lemma_file_one_more(requests0, done, response);
            }
            let ghost checks_before = self.stop_checks();
            let stopped_now = self.observe_stop(stop);
            proof {
                assert(self.stop_checks().take(checks0.len() as int) =~= checks0) by {
                    assert(checks_before.take(checks0.len() as int) == checks0);
                }
                assert forall|i: int| checks0.len() <= i < self.stop_checks().len() - 1
                    implies !#[trigger] self.stop_checks()[i] by {
                    assert(self.stop_checks()[i] == checks_before[i]);
                }
            }
            if self.file_unless_stopped(stopped_now, response, &mut batch) {
                stopped = true;
                break;
            }
            count = count + 1;
            proof {
                let now = all.take(count as int);
                assert(rest@ =~= all.skip(count as int));
                assert(self.locates_cache@ =~= locates0 + page_locates(now));
            }
        }
        let ghost checks_before = self.stop_checks();
        let stopped = stopped || self.observe_stop(stop);
        proof {
            if self.stop_checks().len() > checks_before.len() {
                assert(self.stop_checks().take(checks0.len() as int) =~= checks0) by {
                    assert(checks_before.take(checks0.len() as int) == checks0);
                }
            }
        }
        if !stopped {
            assert(all.take(count as int) =~= all);
        }
        (count, batch_to_send(stopped, batch))
    }
}

/// Whether a batch of restored history goes out to the clients: the restore has not been
/// stopped and the batch is not empty.
pub fn should_send_history(cancelled: bool, batch_len: usize) -> (r: bool)
    ensures
        r == (!cancelled && batch_len > 0),
{
    !cancelled && batch_len > 0
}

/// Position of the restore in the reporting service's list of quote responses.
pub struct RestoreCursor {
    pub skip: i32,
}

impl RestoreCursor {
    pub fn new() -> (r: Self)
        ensures
            r.skip == 0,
    {
        RestoreCursor { skip: 0 }
    }

    /// An empty page ends the restore.
    pub fn page_ends_restore(page_len: usize) -> (r: bool)
        ensures
            r == (page_len == 0),
    {
        page_len == 0
    }

    /// Moves past one page.
    pub fn advance(&mut self)
        requires
            old(self).skip + RESTORE_DATA_TAKE <= i32::MAX,
        ensures
            final(self).skip == old(self).skip + RESTORE_DATA_TAKE,
    {
        self.skip = self.skip + RESTORE_DATA_TAKE;
    }
}

/// One query parameter: a name and its value.
pub open spec fn param(p: (String, String), name: Seq<char>, value: Seq<char>) -> bool {
    p.0@ == name && p.1@ == value
}

/// The query of a page of quote responses, with the instants already written as text.
pub fn quote_responses_query_from_text(from: String, to: String, take: i32, skip: i32) -> (r: Vec<(String, String)>)
    ensures
        r@.len() == 4,
        param(r@[0], "from"@, from@),
        param(r@[1], "to"@, to@),
        param(r@[2], "take"@, crate::text::decimal(take as int)),
        param(r@[3], "skip"@, crate::text::decimal(skip as int)),
{
    let mut r: Vec<(String, String)> = Vec::new();
    r.push((String::from_str("from"), from));
    r.push((String::from_str("to"), to));
    r.push((String::from_str("take"), decimal_text(take as i64)));
    r.push((String::from_str("skip"), decimal_text(skip as i64)));
    r
}

/// The query of a page of quote responses between `from` and `to`.
pub fn quote_responses_query(from: Timestamp, to: Timestamp, take: i32, skip: i32) -> (r: Vec<(String, String)>)
    requires
        iso8601_writable(from),
        iso8601_writable(to),
    ensures
        r@.len() == 4,
        param(r@[0], "from"@, iso8601_text(from.unix_nanos as int, from.offset_seconds as int)),
        param(r@[1], "to"@, iso8601_text(to.unix_nanos as int, to.offset_seconds as int)),
        param(r@[2], "take"@, crate::text::decimal(take as int)),
        param(r@[3], "skip"@, crate::text::decimal(skip as int)),
{
    quote_responses_query_from_text(format_iso8601(from), format_iso8601(to), take, skip)
}


/// Every status but `RequestAccepted` and `RejectedProhibited` is filed somewhere, and the
/// statuses filed both as a locate request and as a locate are exactly the rejections
/// (bad request, duplicate, automatic), and no inventory.
pub proof fn lemma_status_filing(status: QuoteResponseStatusEnum)
    ensures
        (is_request_status(status) || is_locate_status(status)) <==> !(status
            == QuoteResponseStatusEnum::RequestAccepted || status
            == QuoteResponseStatusEnum::RejectedProhibited),
        (is_request_status(status) && is_locate_status(status)) <==> (status
            == QuoteResponseStatusEnum::RejectedBadRequest || status
            == QuoteResponseStatusEnum::RejectedDuplicate || status
            == QuoteResponseStatusEnum::NoInventory || status
            == QuoteResponseStatusEnum::AutoRejected),
{
}

} // verus!
