//! Ordering of history records: newest first.

use vstd::prelude::*;
use vstd::seq_lib::to_multiset_insert;

use crate::models::{LocateModel, LocateRequestModel};

verus! {

/// A record that carries the time it happened at.
pub trait HistoryRecord: Sized + View {
    /// The instant of the record, in nanoseconds since the Unix epoch.
    spec fn time_key(v: Self::V) -> int;

    fn time_nanos(&self) -> (r: i128)
        ensures
            r == Self::time_key(self@);

    fn duplicate(&self) -> (r: Self)
        ensures
            r@ == self@;
}

impl HistoryRecord for LocateRequestModel {
    open spec fn time_key(v: Self::V) -> int {
        v.time.unix_nanos as int
    }

    fn time_nanos(&self) -> (r: i128) {
        self.time.unix_nanos
    }

    fn duplicate(&self) -> (r: Self) {
        self.clone()
    }
}

impl HistoryRecord for LocateModel {
    open spec fn time_key(v: Self::V) -> int {
        v.time.unix_nanos as int
    }

    fn time_nanos(&self) -> (r: i128) {
        self.time.unix_nanos
    }

    fn duplicate(&self) -> (r: Self) {
        self.clone()
    }
}

/// The views of a list of records.
pub open spec fn record_views<T: View>(s: Seq<T>) -> Seq<T::V> {
    s.map_values(|x: T| x@)
}

/// Newest first: no record is older than one after it.
pub open spec fn newest_first<T: HistoryRecord>(s: Seq<T::V>) -> bool {
    forall|i: int, j: int| 0 <= i < j < s.len() ==> T::time_key(s[i]) >= T::time_key(s[j])
}

/// The records of `s` at instant `t`, in their order in `s`.
pub open spec fn at_instant<T: HistoryRecord>(s: Seq<T::V>, t: int) -> Seq<T::V> {
    s.filter(|v: T::V| T::time_key(v) == t)
}

proof fn lemma_at_instant_concat<T: HistoryRecord>(a: Seq<T::V>, b: Seq<T::V>, t: int)
    ensures
        at_instant::<T>(a + b, t) == at_instant::<T>(a, t) + at_instant::<T>(b, t),
{
    Seq::filter_distributes_over_add(a, b, |v: T::V| T::time_key(v) == t);
}

proof fn lemma_at_instant_single<T: HistoryRecord>(x: T::V, t: int)
    ensures
        at_instant::<T>(seq![x], t) == (if T::time_key(x) == t { seq![x] } else { Seq::empty() }),
{
    reveal_with_fuel(Seq::filter, 2);
    assert(seq![x].drop_last() =~= Seq::<T::V>::empty());
    if T::time_key(x) == t {
        assert(at_instant::<T>(seq![x], t) =~= seq![x]);
    } else {
        assert(at_instant::<T>(seq![x], t) =~= Seq::<T::V>::empty());
    }
}

proof fn lemma_at_instant_none<T: HistoryRecord>(a: Seq<T::V>, t: int)
    requires
        forall|i: int| 0 <= i < a.len() ==> T::time_key(#[trigger] a[i]) != t,
    ensures
        at_instant::<T>(a, t) == Seq::<T::V>::empty(),
    decreases a.len(),
{
    reveal_with_fuel(Seq::filter, 1);
    if a.len() > 0 {
        lemma_at_instant_none::<T>(a.drop_last(), t);
        assert(T::time_key(a[a.len() - 1]) != t);
    }
}

/// Copies a list of records element by element.
pub fn duplicate_all<T: HistoryRecord>(v: &Vec<T>) -> (r: Vec<T>)
    ensures
        record_views(r@) == record_views(v@),
{
    let mut r: Vec<T> = Vec::new();
    let mut i: usize = 0;
    while i < v.len()
        invariant
            i <= v.len(),
            record_views(r@) == record_views(v@).take(i as int),
        decreases v.len() - i,
    {
        let ghost before = r@;
        r.push(v[i].duplicate());
        i = i + 1;
        proof {
            assert(record_views(before).len() == before.len());
            assert(record_views(r@) =~= record_views(v@).take(i as int)) by {
                assert forall|j: int| 0 <= j < i implies #[trigger] record_views(r@)[j]
                    == record_views(v@)[j] by {
                    if j < i - 1 {
                        assert(record_views(before)[j] == record_views(v@).take(i - 1)[j]);
                    }
                }
            }
        }
    }
    assert(record_views(v@).take(v.len() as int) =~= record_views(v@));
    r
}

/// Sorts records newest first. Records of the same instant keep their order.
pub fn sort_newest_first<T: HistoryRecord>(v: Vec<T>) -> (r: Vec<T>)
    ensures
        newest_first::<T>(record_views(r@)),
        record_views(r@).to_multiset() == record_views(v@).to_multiset(),
        forall|t: int| #[trigger] at_instant::<T>(record_views(r@), t) == at_instant::<T>(
            record_views(v@),
            t,
        ),
{
    broadcast use vstd::seq_lib::group_to_multiset_ensures, vstd::multiset::group_multiset_axioms;

    let ghost input = record_views(v@);

    let mut rest = v;
    let mut sorted: Vec<T> = Vec::new();
    proof {
        assert(record_views(sorted@) =~= Seq::<T::V>::empty());
        assert(record_views(sorted@).to_multiset() =~= vstd::multiset::Multiset::empty());
        assert forall|t: int| #[trigger] at_instant::<T>(input, t) == at_instant::<T>(
            record_views(rest@),
            t,
        ) + at_instant::<T>(record_views(sorted@), t) by {
            lemma_at_instant_none::<T>(record_views(sorted@), t);
            assert(record_views(rest@) == input);
            assert(at_instant::<T>(input, t) + Seq::<T::V>::empty() =~= at_instant::<T>(
                input,
                t,
            ));
        }
    }
    while rest.len() > 0
        invariant
            newest_first::<T>(record_views(sorted@)),
            record_views(sorted@).to_multiset().add(record_views(rest@).to_multiset())
                == input.to_multiset(),
            forall|t: int| #[trigger] at_instant::<T>(input, t) == at_instant::<T>(
                record_views(rest@),
                t,
            ) + at_instant::<T>(record_views(sorted@), t),
        decreases rest.len(),
    {
        let ghost rest_before = record_views(rest@);
        let ghost sorted_before = record_views(sorted@);
        let x = rest.pop().unwrap();
        let key = x.time_nanos();
        // The record goes before every older one; it follows those newer than it
        // and, coming earlier in the input, goes before those of its own instant.
        let mut p: usize = 0;
        while p < sorted.len() && sorted[p].time_nanos() > key
            invariant
                p <= sorted.len(),
                record_views(sorted@) == sorted_before,
                newest_first::<T>(sorted_before),
                forall|i: int| 0 <= i < p ==> T::time_key(record_views(sorted@)[i]) > key,
            decreases sorted.len() - p,
        {
            p = p + 1;
        }
        proof {
            assert(record_views(sorted@).len() == sorted@.len());
        }
        sorted.insert(p, x);
        proof {
            let xv = x@;
            assert(record_views(sorted@) =~= sorted_before.insert(p as int, xv));
            assert(rest_before =~= record_views(rest@).push(xv));
            to_multiset_insert(sorted_before, p as int, xv);
            vstd::seq_lib::to_multiset_build(record_views(rest@), xv);
            assert(record_views(sorted@).to_multiset().add(record_views(rest@).to_multiset())
                =~= input.to_multiset());
            assert forall|t: int| #[trigger] at_instant::<T>(input, t) == at_instant::<T>(
                record_views(rest@),
                t,
            ) + at_instant::<T>(record_views(sorted@), t) by {
                let pre = sorted_before.take(p as int);
                let post = sorted_before.skip(p as int);
                assert(sorted_before =~= pre + post);
                assert(record_views(sorted@) =~= pre + seq![xv] + post);
                lemma_at_instant_concat::<T>(pre, post, t);
                lemma_at_instant_concat::<T>(pre + seq![xv], post, t);
                lemma_at_instant_concat::<T>(pre, seq![xv], t);
                lemma_at_instant_concat::<T>(record_views(rest@), seq![xv], t);
                assert(rest_before =~= record_views(rest@) + seq![xv]);
                lemma_at_instant_single::<T>(xv, t);
                if T::time_key(xv) == t {
                    assert forall|i: int| 0 <= i < pre.len() implies T::time_key(#[trigger] pre[i])
                        != t by {
                        assert(pre[i] == sorted_before[i]);
                    }
                    lemma_at_instant_none::<T>(pre, t);
                    assert(at_instant::<T>(pre, t) + at_instant::<T>(seq![xv], t) =~= seq![xv]);
                    assert(at_instant::<T>(record_views(sorted@), t) =~= seq![xv]
                        + at_instant::<T>(sorted_before, t));
                    assert(at_instant::<T>(rest_before, t) =~= at_instant::<T>(
                        record_views(rest@),
                        t,
                    ) + seq![xv]);
                } else {
                    assert(at_instant::<T>(pre, t) + at_instant::<T>(seq![xv], t) =~= at_instant::<
                        T,
                    >(pre, t));
                    assert(at_instant::<T>(rest_before, t) =~= at_instant::<T>(
                        record_views(rest@),
                        t,
                    ) + Seq::<T::V>::empty());
                }
            }
            assert(newest_first::<T>(record_views(sorted@))) by {
                let s = record_views(sorted@);
                assert forall|i: int, j: int| 0 <= i < j < s.len() implies T::time_key(s[i])
                    >= T::time_key(s[j]) by {
                    if p < sorted_before.len() {
                        assert(T::time_key(sorted_before[p as int]) <= key);
                    }
                    if i < p && j == p {
                    } else if i == p && j > p {
                        assert(s[j] == sorted_before[j - 1]);
                        assert(T::time_key(sorted_before[j - 1]) <= T::time_key(
                            sorted_before[p as int],
                        ));
                    } else if j < p {
                        assert(s[i] == sorted_before[i] && s[j] == sorted_before[j]);
                    } else if i < p {
                        assert(s[i] == sorted_before[i] && s[j] == sorted_before[j - 1]);
                    } else {
                        assert(s[i] == sorted_before[i - 1] && s[j] == sorted_before[j - 1]);
                    }
                }
            }
        }
    }
    proof {
        assert(record_views(rest@) =~= Seq::<T::V>::empty());
        assert(record_views(rest@).to_multiset() =~= vstd::multiset::Multiset::empty());
        assert forall|t: int| #[trigger] at_instant::<T>(record_views(sorted@), t) == at_instant::<
            T,
        >(input, t) by {
            lemma_at_instant_none::<T>(record_views(rest@), t);
            assert(Seq::<T::V>::empty() + at_instant::<T>(record_views(sorted@), t) =~= at_instant::<
                T,
            >(record_views(sorted@), t));
        }
    }
    sorted
}

} // verus!
