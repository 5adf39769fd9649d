use vstd::prelude::*;

use crate::models::locate::{locate_model_of, LocateView};
use crate::models::{LocateModel, LocatorQuoteResponse};
use crate::services::history::{
    at_instant, duplicate_all, newest_first, record_views, sort_newest_first,
};

verus! {

/// Every locate this service has seen, in the order it saw them.
pub struct LocatesCache {
    locates_cache: Vec<LocateModel>,
}

impl View for LocatesCache {
    type V = Seq<LocateView>;

    closed spec fn view(&self) -> Seq<LocateView> {
        record_views(self.locates_cache@)
    }
}

impl LocatesCache {
    pub fn new() -> (r: Self)
        ensures
            r@ == Seq::<LocateView>::empty(),
    {
        let r = Self { locates_cache: Vec::new() };
        assert(r@ =~= Seq::<LocateView>::empty());
        r
    }

    /// The locates, newest first; locates of the same instant stay in the order they came
    /// in. The cache keeps them in that order from then on.
    pub fn get_history_records(&mut self) -> (r: Vec<LocateModel>)
        ensures
            newest_first::<LocateModel>(final(self)@),
            final(self)@.to_multiset() == old(self)@.to_multiset(),
            forall|t: int| #[trigger] at_instant::<LocateModel>(final(self)@, t)
                == at_instant::<LocateModel>(old(self)@, t),
            record_views(r@) == final(self)@,
    {
        let mut records: Vec<LocateModel> = Vec::new();
        std::mem::swap(&mut records, &mut self.locates_cache);
        self.locates_cache = sort_newest_first(records);
        duplicate_all(&self.locates_cache)
    }

    /// Records the locate of `message` and returns it.
    pub fn memorize(&mut self, message: LocatorQuoteResponse) -> (r: LocateModel)
        ensures
            r@ == locate_model_of(message),
            r.quote_id@ == message.id@,
            r.time == message.time,
            r.req_qty == message.req_qty,
            r.qty_fill == (match message.fill_qty { Some(q) => q, None => 0 }),
            r.user_price == (match message.price { Some(p) => p, None => 0 }),
            r.tz_price == message.tz_price,
            r.status == message.status,
            final(self)@ == old(self)@.push(r@),
    {
        let entity = LocateModel {
            quote_id: message.id,
            time: message.time,
            account_id: message.account_id,
            firm_id: message.firm_id,
            symbol: message.symbol,
            qty_fill: match message.fill_qty {
                Some(q) => q,
                None => 0,
            },
            req_qty: message.req_qty,
            user_price: match message.price {
                Some(p) => p,
                None => 0,
            },
            tz_price: message.tz_price,
            status: message.status,
            error_message: message.error_message,
            source: message.source,
            source_details: message.sources,
        };
        let ghost before = self.locates_cache@;
        self.locates_cache.push(entity.clone());
        proof {
            assert(record_views(self.locates_cache@) =~= record_views(before).push(entity@));
        }
        entity
    }

    /// The number of locates seen.
    pub fn len(&self) -> (r: usize)
        ensures
            r == self@.len(),
    {
        self.locates_cache.len()
    }
}


/// Reading the history after memorizing a locate gives every locate memorized so far, the
/// new one included: the history, as a reordering of the cache, has one entry more and
/// holds the memorized locate.
pub proof fn lemma_history_holds_memorized(
    before: Seq<LocateView>,
    memorized: LocateView,
    history: Seq<LocateView>,
)
    requires
        history.to_multiset() == before.push(memorized).to_multiset(),
    ensures
        history.len() == before.len() + 1,
        history.contains(memorized),
{
    broadcast use vstd::seq_lib::group_to_multiset_ensures;

    assert(before.push(memorized).contains(memorized)) by {
        assert(before.push(memorized)[before.len() as int] == memorized);
    }
    assert(before.push(memorized).to_multiset().contains(memorized));
    vstd::seq_lib::to_multiset_len(history);
    vstd::seq_lib::to_multiset_len(before.push(memorized));
}

/// The cache after memorizing `messages`, one after the other, into a cache that held
/// `start`.
pub open spec fn memorized_locates(
    start: Seq<LocateView>,
    messages: Seq<LocatorQuoteResponse>,
) -> Seq<LocateView>
    decreases messages.len(),
{
    if messages.len() == 0 {
        start
    } else {
        memorized_locates(start, messages.drop_last()).push(locate_model_of(messages.last()))
    }
}

proof fn lemma_memorized_locates_from_empty(messages: Seq<LocatorQuoteResponse>)
    ensures
        memorized_locates(Seq::empty(), messages) == messages.map_values(
            |m: LocatorQuoteResponse| locate_model_of(m),
        ),
    decreases messages.len(),
{
    if messages.len() > 0 {
        lemma_memorized_locates_from_empty(messages.drop_last());
        assert(messages.map_values(|m: LocatorQuoteResponse| locate_model_of(m)) =~= messages.drop_last().map_values(
            |m: LocatorQuoteResponse| locate_model_of(m),
        ).push(locate_model_of(messages.last())));
    } else {
        assert(messages.map_values(|m: LocatorQuoteResponse| locate_model_of(m)) =~= Seq::<LocateView>::empty());
    }
}

/// The history of a fresh cache after `n` locates were memorized holds exactly those `n`
/// locates, duplicates kept, newest first: `history` is what the history gives for the
/// cache that memorizing `messages` into a new cache leaves.
pub proof fn lemma_history_of_memorized_locates(
    messages: Seq<LocatorQuoteResponse>,
    history: Seq<LocateView>,
)
    requires
        newest_first::<LocateModel>(history),
        history.to_multiset() == memorized_locates(Seq::empty(), messages).to_multiset(),
    ensures
        history.len() == messages.len(),
        history.to_multiset() == messages.map_values(|m: LocatorQuoteResponse| locate_model_of(m)).to_multiset(),
        forall|i: int, j: int| 0 <= i < j < history.len() ==> history[i].time.unix_nanos >= history[j].time.unix_nanos,
{
    lemma_memorized_locates_from_empty(messages);
    vstd::seq_lib::to_multiset_len(history);
    vstd::seq_lib::to_multiset_len(memorized_locates(Seq::empty(), messages));
}

} // verus!
