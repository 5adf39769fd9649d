use vstd::prelude::*;

use crate::models::locate::{request_model_of, LocateRequestView};
use crate::models::quote::{source_names, QuoteSourceInfo};
use crate::models::{LocateRequestModel, LocatorQuoteResponse};
use crate::services::history::{duplicate_all, newest_first, record_views, sort_newest_first};
use crate::text::{join, views};

verus! {

/// The latest locate request of each quote id.
pub struct LocateRequestsCache {
    locate_requests_cache: Vec<LocateRequestModel>,
}

/// No two records share an id.
pub open spec fn unique_ids(s: Seq<LocateRequestView>) -> bool {
    forall|i: int, j: int| 0 <= i < s.len() && 0 <= j < s.len() && i != j ==> s[i].id != s[j].id
}

/// The records of `s` keyed by id.
pub open spec fn by_id(s: Seq<LocateRequestView>) -> Map<Seq<char>, LocateRequestView> {
    Map::new(
        |k: Seq<char>| exists|i: int| 0 <= i < s.len() && s[i].id == k,
        |k: Seq<char>| s[choose|i: int| 0 <= i < s.len() && s[i].id == k],
    )
}

proof fn lemma_by_id_index(s: Seq<LocateRequestView>, i: int)
    requires
        unique_ids(s),
        0 <= i < s.len(),
    ensures
        by_id(s).contains_key(s[i].id),
        by_id(s)[s[i].id] == s[i],
{
    let k = s[i].id;
    assert(by_id(s).contains_key(k));
    let j = choose|j: int| 0 <= j < s.len() && s[j].id == k;
    assert(j == i);
}

proof fn lemma_by_id_push(s: Seq<LocateRequestView>, x: LocateRequestView)
    requires
        unique_ids(s),
        !by_id(s).contains_key(x.id),
    ensures
        unique_ids(s.push(x)),
        by_id(s.push(x)) == by_id(s).insert(x.id, x),
{
    let t = s.push(x);
    assert forall|i: int| 0 <= i < s.len() implies s[i].id != x.id by {
        lemma_by_id_index(s, i);
    }
    assert(unique_ids(t));
    assert forall|k: Seq<char>| #[trigger] by_id(t).contains_key(k) == by_id(s).insert(x.id, x).contains_key(k) by {
        if by_id(s).contains_key(k) {
            let i = choose|i: int| 0 <= i < s.len() && s[i].id == k;
            assert(t[i].id == k);
        }
        if k == x.id {
            assert(t[s.len() as int].id == k);
        }
    }
    assert forall|k: Seq<char>| #[trigger] by_id(t).contains_key(k) implies by_id(t)[k] == by_id(s).insert(x.id, x)[k] by {
        let i = choose|i: int| 0 <= i < t.len() && t[i].id == k;
        lemma_by_id_index(t, i);
        if i < s.len() {
            lemma_by_id_index(s, i);
        }
    }
    assert(by_id(t) =~= by_id(s).insert(x.id, x));
}

proof fn lemma_by_id_update(s: Seq<LocateRequestView>, i: int, x: LocateRequestView)
    requires
        unique_ids(s),
        0 <= i < s.len(),
        s[i].id == x.id,
    ensures
        unique_ids(s.update(i, x)),
        by_id(s.update(i, x)) == by_id(s).insert(x.id, x),
{
    let t = s.update(i, x);
    assert(unique_ids(t));
    assert forall|k: Seq<char>| #[trigger] by_id(t).contains_key(k) == by_id(s).insert(x.id, x).contains_key(k) by {
        if by_id(s).contains_key(k) {
            let j = choose|j: int| 0 <= j < s.len() && s[j].id == k;
            assert(t[j].id == k);
        }
        if by_id(t).contains_key(k) {
            let j = choose|j: int| 0 <= j < t.len() && t[j].id == k;
            assert(s[j].id == k);
        }
        if k == x.id {
            assert(t[i].id == k);
        }
    }
    assert forall|k: Seq<char>| #[trigger] by_id(t).contains_key(k) implies by_id(t)[k] == by_id(s).insert(x.id, x)[k] by {
        let j = choose|j: int| 0 <= j < t.len() && t[j].id == k;
        lemma_by_id_index(t, j);
        if j != i {
            lemma_by_id_index(s, j);
        }
    }
    assert(by_id(t) =~= by_id(s).insert(x.id, x));
}

proof fn lemma_by_id_keys(s: Seq<LocateRequestView>)
    ensures
        forall|k: Seq<char>| #[trigger] by_id(s).contains_key(k) ==> by_id(s)[k].id == k,
        by_id(s).dom().finite(),
{
    let ids = s.map_values(|v: LocateRequestView| v.id);
    assert forall|k: Seq<char>| #[trigger] by_id(s).contains_key(k) implies by_id(s)[k].id == k by {
        let i = choose|i: int| 0 <= i < s.len() && s[i].id == k;
        assert(s[i].id == k);
    }
    assert(by_id(s).dom() =~= ids.to_set()) by {
        assert forall|k: Seq<char>| by_id(s).dom().contains(k) implies ids.to_set().contains(k) by {
            let i = choose|i: int| 0 <= i < s.len() && s[i].id == k;
            assert(ids[i] == k);
        }
        assert forall|k: Seq<char>| ids.to_set().contains(k) implies by_id(s).dom().contains(k) by {
            let i = choose|i: int| 0 <= i < ids.len() && ids[i] == k;
            assert(s[i].id == k);
        }
    }
    vstd::seq_lib::seq_to_set_is_finite(ids);
}

impl View for LocateRequestsCache {
    type V = Map<Seq<char>, LocateRequestView>;

    closed spec fn view(&self) -> Map<Seq<char>, LocateRequestView> {
        by_id(record_views(self.locate_requests_cache@))
    }
}

/// The time a memorized request is kept at: the time of the request already recorded
/// under the same id, if there is one, else the time of the message.
pub open spec fn kept_time(
    cache: Map<Seq<char>, LocateRequestView>,
    message: LocatorQuoteResponse,
) -> crate::timestamp::Timestamp {
    if cache.contains_key(message.id@) {
        cache[message.id@].time
    } else {
        message.time
    }
}

fn source_list(sources: &Vec<QuoteSourceInfo>) -> (r: Vec<String>)
    ensures
        views(r@) == source_names(sources@),
{
    let mut r: Vec<String> = Vec::new();
    let mut i: usize = 0;
    while i < sources.len()
        invariant
            i <= sources.len(),
            views(r@) == source_names(sources@).take(i as int),
        decreases sources.len() - i,
    {
        let ghost before = r@;
        r.push(sources[i].source.clone());
        i = i + 1;
        proof {
            assert(views(before).len() == before.len());
            assert(source_names(sources@).len() == sources@.len());
            assert(views(r@) =~= source_names(sources@).take(i as int)) by {
                assert forall|j: int| 0 <= j < i implies #[trigger] views(r@)[j]
                    == source_names(sources@)[j] by {
                    if j < i - 1 {
                        assert(views(before)[j] == source_names(sources@).take(i - 1)[j]);
                    }
                }
            }
        }
    }
    assert(source_names(sources@).take(sources.len() as int) =~= source_names(sources@));
    r
}

impl LocateRequestsCache {
    /// Validity: no two records share an id.
    pub closed spec fn wf(&self) -> bool {
        unique_ids(record_views(self.locate_requests_cache@))
    }

    /// Every request is held under its own id, and the cache holds finitely many.
    pub proof fn lemma_keys_are_ids(&self)
        requires
            self.wf(),
        ensures
            forall|k: Seq<char>| #[trigger] self@.contains_key(k) ==> self@[k].id == k,
            self@.dom().finite(),
    {
        lemma_by_id_keys(record_views(self.locate_requests_cache@));
    }

    pub fn new() -> (r: Self)
        ensures
            r.wf(),
            r@ == Map::<Seq<char>, LocateRequestView>::empty(),
            forall|k: Seq<char>| #[trigger] r@.contains_key(k) ==> r@[k].id == k,
            r@.dom().finite(),
    {
        let r = Self { locate_requests_cache: Vec::new() };
        assert(r@ =~= Map::<Seq<char>, LocateRequestView>::empty());
        r
    }

    /// Position of the record with the given id.
    fn position_of(&self, id: &String) -> (r: Option<usize>)
        requires
            self.wf(),
        ensures
            match r {
                Some(i) => i < self.locate_requests_cache@.len()
                    && self.locate_requests_cache@[i as int]@.id == id@,
                None => !self@.contains_key(id@),
            },
    {
        let mut i: usize = 0;
        while i < self.locate_requests_cache.len()
            invariant
                i <= self.locate_requests_cache.len(),
                forall|j: int| 0 <= j < i ==> self.locate_requests_cache@[j]@.id != id@,
            decreases self.locate_requests_cache.len() - i,
        {
            if self.locate_requests_cache[i].id == *id {
                return Some(i);
            }
            i = i + 1;
        }
        proof {
            let s = record_views(self.locate_requests_cache@);
            if self@.contains_key(id@) {
                let j = choose|j: int| 0 <= j < s.len() && s[j].id == id@;
                assert(self.locate_requests_cache@[j]@.id == id@);
            }
        }
        None
    }

    /// The requests, newest first, each once.
    pub fn get_history_records(&self) -> (r: Vec<LocateRequestModel>)
        requires
            self.wf(),
        ensures
            newest_first::<LocateRequestModel>(record_views(r@)),
            forall|i: int| 0 <= i < r@.len() ==> self@.contains_key(#[trigger] r@[i]@.id)
                && self@[r@[i]@.id] == r@[i]@,
            forall|i: int, j: int| 0 <= i < j < r@.len() ==> r@[i]@.id != r@[j]@.id,
            forall|k: Seq<char>| self@.contains_key(k) ==> exists|i: int|
                0 <= i < r@.len() && #[trigger] r@[i]@.id == k,
    {
        broadcast use vstd::seq_lib::group_to_multiset_ensures, vstd::multiset::group_multiset_axioms;

        let copies = duplicate_all(&self.locate_requests_cache);
        let r = sort_newest_first(copies);
        proof {
            let s = record_views(self.locate_requests_cache@);
            let out = record_views(r@);
            assert(out.len() == r@.len());
            assert forall|i: int| 0 <= i < r@.len() implies self@.contains_key(#[trigger] r@[i]@.id)
                && self@[r@[i]@.id] == r@[i]@ by {
                assert(out[i] == r@[i]@);
                assert(out.to_multiset().contains(out[i]));
                assert(s.contains(out[i]));
                let a = choose|a: int| 0 <= a < s.len() && s[a] == out[i];
                lemma_by_id_index(s, a);
            }
            assert forall|i: int, j: int| 0 <= i < j < r@.len() implies r@[i]@.id != r@[j]@.id by {
                assert(out[i] == r@[i]@ && out[j] == r@[j]@);
                if r@[i]@.id == r@[j]@.id {
                    assert(s.contains(out[i]));
                    let a = choose|a: int| 0 <= a < s.len() && s[a] == out[i];
                    // one record per id: out[i] and out[j] are the same record
                    assert(s.contains(out[j]));
                    let b = choose|b: int| 0 <= b < s.len() && s[b] == out[j];
                    assert(a == b);
                    assert(out[i] == out[j]);
                    assert(s.no_duplicates()) by {
                        assert forall|x: int, y: int| 0 <= x < s.len() && 0 <= y < s.len() && x != y
                            implies s[x] != s[y] by {}
                    }
                    s.lemma_multiset_has_no_duplicates();
                    out.lemma_multiset_has_no_duplicates_conv();
                    assert(out[i] != out[j]);
                    assert(false);
                }
            }
            assert forall|k: Seq<char>| self@.contains_key(k) implies exists|i: int|
                0 <= i < r@.len() && #[trigger] r@[i]@.id == k by {
                let a = choose|a: int| 0 <= a < s.len() && s[a].id == k;
                assert(s.to_multiset().contains(s[a]));
                assert(out.contains(s[a]));
                let i = choose|i: int| 0 <= i < out.len() && out[i] == s[a];
                assert(r@[i]@.id == k);
            }
        }
        r
    }

    /// Records the locate request of `message` under its id and returns it. A request
    /// already recorded under that id is replaced, and its time is kept.
    pub fn memorize(&mut self, message: LocatorQuoteResponse) -> (r: LocateRequestModel)
        requires
            old(self).wf(),
        ensures
            final(self).wf(),
            r@ == request_model_of(message, kept_time(old(self)@, message)),
            r.id@ == message.id@,
            r.qty_req == message.req_qty,
            r.qty_offer == (match message.fill_qty { Some(q) => q, None => 0 }),
            r.price == (match message.price { Some(p) => p, None => 0 }),
            r.tz_price == message.tz_price,
            old(self)@.contains_key(message.id@) ==> r.time == old(self)@[message.id@].time,
            !old(self)@.contains_key(message.id@) ==> r.time == message.time,
            final(self)@ == old(self)@.insert(message.id@, r@),
            forall|k: Seq<char>| #[trigger] final(self)@.contains_key(k) ==> final(self)@[k].id == k,
            final(self)@.dom().finite(),
            final(self)@.dom().len() == old(self)@.dom().len() + (if old(self)@.contains_key(
                message.id@,
            ) {
                0int
            } else {
                1int
            }),
    {
        proof {
            self.lemma_keys_are_ids();
        }
        let names = source_list(&message.sources);
        let source = join(&names, ", ");
        let position = self.position_of(&message.id);
        let time = match position {
            Some(i) => self.locate_requests_cache[i].time,
            None => message.time,
        };
        proof {
            if let Some(i) = position {
                lemma_by_id_index(record_views(self.locate_requests_cache@), i as int);
            }
        }
        let ghost msg = message;
        let new_entity = LocateRequestModel {
            id: message.id,
            account_id: message.account_id,
            firm_id: message.firm_id,
            symbol: message.symbol,
            qty_req: message.req_qty,
            qty_offer: match message.fill_qty {
                Some(q) => q,
                None => 0,
            },
            price: match message.price {
                Some(p) => p,
                None => 0,
            },
            tz_price: message.tz_price,
            source,
            source_details: message.sources,
            time,
        };
        assert(new_entity@ == request_model_of(msg, kept_time(old(self)@, msg)));
        let ghost before = record_views(self.locate_requests_cache@);
        let stored = new_entity.clone();
        match position {
            Some(i) => {
                self.locate_requests_cache.set(i, stored);
                proof {
                    assert(record_views(self.locate_requests_cache@) =~= before.update(
                        i as int,
                        new_entity@,
                    ));
                    lemma_by_id_update(before, i as int, new_entity@);
                }
            },
            None => {
                self.locate_requests_cache.push(stored);
                proof {
                    assert(record_views(self.locate_requests_cache@) =~= before.push(new_entity@));
                    lemma_by_id_push(before, new_entity@);
                }
            },
        }
        proof {
            self.lemma_keys_are_ids();
            assert(self@.dom() =~= old(self)@.dom().insert(message.id@));
        }
        new_entity
    }
}


/// A quote id keeps the time it was first seen at: after a request with some id is
/// memorized into a cache that did not hold that id, and then another with the same id,
/// the cache holds the later request at the earlier one's time.
pub proof fn lemma_first_time_is_kept(
    cache: Map<Seq<char>, LocateRequestView>,
    first: LocatorQuoteResponse,
    second: LocatorQuoteResponse,
)
    requires
        !cache.contains_key(first.id@),
        second.id@ == first.id@,
    ensures
        ({
            let after_first = cache.insert(first.id@, request_model_of(first, kept_time(cache, first)));
            let after_second = after_first.insert(
                second.id@,
                request_model_of(second, kept_time(after_first, second)),
            );
            &&& after_second.contains_key(first.id@)
            &&& after_second[first.id@] == request_model_of(second, first.time)
        }),
{
}

/// Memorizing a request never loses another: every id held before is still held, with
/// the same request unless it is the memorized id; and the memorized id is held.
pub proof fn lemma_memorize_keeps_others(
    cache: Map<Seq<char>, LocateRequestView>,
    message: LocatorQuoteResponse,
)
    ensures
        ({
            let after = cache.insert(message.id@, request_model_of(message, kept_time(cache, message)));
            &&& after.contains_key(message.id@)
            &&& after[message.id@].id == message.id@
            &&& forall|k: Seq<char>| #[trigger] cache.contains_key(k) && k != message.id@
                ==> after.contains_key(k) && after[k] == cache[k]
            &&& after.dom() == cache.dom().insert(message.id@)
        }),
{
    let after = cache.insert(message.id@, request_model_of(message, kept_time(cache, message)));
    assert(after.dom() =~= cache.dom().insert(message.id@));
}

/// The cache after memorizing `messages`, one after the other, into a cache that held
/// `start`.
pub open spec fn memorized_requests(
    start: Map<Seq<char>, LocateRequestView>,
    messages: Seq<LocatorQuoteResponse>,
) -> Map<Seq<char>, LocateRequestView>
    decreases messages.len(),
{
    if messages.len() == 0 {
        start
    } else {
        let before = memorized_requests(start, messages.drop_last());
        let x = messages.last();
        before.insert(x.id@, request_model_of(x, kept_time(before, x)))
    }
}

/// The ids of `messages`.
pub open spec fn message_ids(messages: Seq<LocatorQuoteResponse>) -> Set<Seq<char>> {
    messages.map_values(|m: LocatorQuoteResponse| m.id@).to_set()
}

/// Among `messages`, `first` is the first and `last` the last to carry id `k`.
pub open spec fn first_and_last_with_id(
    messages: Seq<LocatorQuoteResponse>,
    k: Seq<char>,
    first: int,
    last: int,
) -> bool {
    &&& 0 <= first <= last < messages.len()
    &&& messages[first].id@ == k
    &&& messages[last].id@ == k
    &&& forall|p: int| 0 <= p < first ==> messages[p].id@ != k
    &&& forall|p: int| last < p < messages.len() ==> messages[p].id@ != k
}

/// `v` is the request of the last of `messages` with its id, at the time of the first.
pub open spec fn latest_at_first_time(messages: Seq<LocatorQuoteResponse>, v: LocateRequestView) -> bool {
    exists|first: int, last: int|
        first_and_last_with_id(messages, v.id, first, last) && v == request_model_of(
            messages[last],
            messages[first].time,
        )
}

proof fn lemma_memorized_requests_from_empty(messages: Seq<LocatorQuoteResponse>)
    ensures
        memorized_requests(Map::empty(), messages).dom() == message_ids(messages),
        forall|k: Seq<char>| #[trigger] memorized_requests(Map::empty(), messages).contains_key(k)
            ==> exists|first: int, last: int| first_and_last_with_id(messages, k, first, last)
                && memorized_requests(Map::empty(), messages)[k] == request_model_of(
                    messages[last],
                    messages[first].time,
                ),
    decreases messages.len(),
{
    let m = memorized_requests(Map::empty(), messages);
    let ids = messages.map_values(|x: LocatorQuoteResponse| x.id@);
    if messages.len() == 0 {
        assert(m.dom() =~= message_ids(messages));
    } else {
        let earlier = messages.drop_last();
        let n = earlier.len() as int;
        let x = messages.last();
        let before = memorized_requests(Map::empty(), earlier);
        lemma_memorized_requests_from_empty(earlier);
        let earlier_ids = earlier.map_values(|y: LocatorQuoteResponse| y.id@);
        assert(ids =~= earlier_ids.push(x.id@));
        assert forall|p: int| 0 <= p < n implies #[trigger] messages[p] == earlier[p] by {}
        assert(messages[n] == x);
        assert(m.dom() =~= message_ids(messages)) by {
            assert forall|k: Seq<char>| m.dom().contains(k) implies message_ids(messages).contains(k) by {
                if k == x.id@ {
                    assert(ids[n] == k);
                } else {
                    assert(message_ids(earlier).contains(k));
                    let q = choose|q: int| 0 <= q < earlier_ids.len() && earlier_ids[q] == k;
                    assert(ids[q] == k);
                }
            }
            assert forall|k: Seq<char>| message_ids(messages).contains(k) implies m.dom().contains(k) by {
                let q = choose|q: int| 0 <= q < ids.len() && ids[q] == k;
                if q < n {
                    assert(earlier_ids[q] == k);
                    assert(message_ids(earlier).contains(k));
                }
            }
        }
        assert forall|k: Seq<char>| #[trigger] m.contains_key(k) implies exists|first: int, last: int|
            first_and_last_with_id(messages, k, first, last) && m[k] == request_model_of(
                messages[last],
                messages[first].time,
            ) by {
            if k == x.id@ {
                if before.contains_key(k) {
                    let (f, l) = choose|f: int, l: int| first_and_last_with_id(earlier, k, f, l)
                        && before[k] == request_model_of(earlier[l], earlier[f].time);
                    assert(kept_time(before, x) == earlier[f].time);
                    assert(first_and_last_with_id(messages, k, f, n));
                } else {
                    assert forall|p: int| 0 <= p < n implies messages[p].id@ != k by {
                        if messages[p].id@ == k {
                            assert(earlier_ids[p] == k);
                            assert(message_ids(earlier).contains(k));
                        }
                    }
                    assert(first_and_last_with_id(messages, k, n, n));
                }
            } else {
                let (f, l) = choose|f: int, l: int| first_and_last_with_id(earlier, k, f, l)
                    && before[k] == request_model_of(earlier[l], earlier[f].time);
                assert(first_and_last_with_id(messages, k, f, l));
            }
        }
    }
}

/// After memorizing requests with the ids `K` into a new cache, the history holds one
/// request per id of `K`, and no other: the request memorized last under that id, at the
/// time the id was first memorized; newest first. `history` is what the history gives for
/// the cache that memorizing `messages` into a new cache leaves.
pub proof fn lemma_history_of_memorized_requests(
    messages: Seq<LocatorQuoteResponse>,
    history: Seq<LocateRequestView>,
)
    requires
        newest_first::<LocateRequestModel>(history),
        forall|i: int| 0 <= i < history.len() ==> memorized_requests(Map::empty(), messages).contains_key(
            #[trigger] history[i].id,
        ) && memorized_requests(Map::empty(), messages)[history[i].id] == history[i],
        forall|i: int, j: int| 0 <= i < j < history.len() ==> history[i].id != history[j].id,
        forall|k: Seq<char>| memorized_requests(Map::empty(), messages).contains_key(k) ==> exists|i: int|
            0 <= i < history.len() && #[trigger] history[i].id == k,
    ensures
        history.len() == message_ids(messages).len(),
        forall|i: int| 0 <= i < history.len() ==> latest_at_first_time(messages, #[trigger] history[i]),
        forall|i: int, j: int| 0 <= i < j < history.len() ==> history[i].time.unix_nanos
            >= history[j].time.unix_nanos,
{
    let m = memorized_requests(Map::empty(), messages);
    lemma_memorized_requests_from_empty(messages);
    let hids = history.map_values(|v: LocateRequestView| v.id);
    assert(hids.no_duplicates()) by {
        assert forall|i: int, j: int| 0 <= i < hids.len() && 0 <= j < hids.len() && i != j
            implies hids[i] != hids[j] by {
            if i < j {
                assert(history[i].id != history[j].id);
            } else {
                assert(history[j].id != history[i].id);
            }
        }
    }
    hids.unique_seq_to_set();
    assert(hids.to_set() =~= message_ids(messages)) by {
        assert forall|k: Seq<char>| hids.to_set().contains(k) implies message_ids(messages).contains(k) by {
            let i = choose|i: int| 0 <= i < hids.len() && hids[i] == k;
            assert(history[i].id == k);
            assert(m.dom().contains(k));
        }
        assert forall|k: Seq<char>| message_ids(messages).contains(k) implies hids.to_set().contains(k) by {
            assert(m.contains_key(k));
            let i = choose|i: int| 0 <= i < history.len() && #[trigger] history[i].id == k;
            assert(hids[i] == k);
        }
    }
    assert forall|i: int| 0 <= i < history.len() implies latest_at_first_time(messages, #[trigger] history[i]) by {
        let k = history[i].id;
        assert(m.contains_key(k));
        let (f, l) = choose|f: int, l: int| first_and_last_with_id(messages, k, f, l)
            && m[k] == request_model_of(messages[l], messages[f].time);
        assert(first_and_last_with_id(messages, k, f, l) && history[i] == request_model_of(
            messages[l],
            messages[f].time,
        ));
    }
}

} // verus!
