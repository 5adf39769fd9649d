//! What the Kafka consumers decide: which brokers to connect to.

use vstd::prelude::*;
use vstd::string::*;

verus! {

/// The pieces of `s` between the commas, as `str::split(',')` gives them: one piece more
/// than there are commas, empty pieces included.
pub open spec fn comma_pieces(s: Seq<char>) -> Seq<Seq<char>>
    decreases s.len(),
{
    if s.len() == 0 {
        seq![Seq::empty()]
    } else {
        let pieces = comma_pieces(s.drop_last());
        if s.last() == ',' {
            pieces.push(Seq::empty())
        } else {
            pieces.update(pieces.len() - 1, pieces.last().push(s.last()))
        }
    }
}

proof fn lemma_comma_pieces_nonempty(s: Seq<char>)
    ensures
        comma_pieces(s).len() >= 1,
    decreases s.len(),
{
    if s.len() > 0 {
        lemma_comma_pieces_nonempty(s.drop_last());
    }
}

/// The hosts of a comma-separated list of bootstrap servers.
pub fn split_hosts(bootstrap_servers: &str) -> (r: Vec<String>)
    ensures
        crate::text::views(r@) == comma_pieces(bootstrap_servers@),
{
    let n = bootstrap_servers.unicode_len();
    let mut done: Vec<String> = Vec::new();
    let mut current = String::new();
    let mut i: usize = 0;
    proof {
        assert(bootstrap_servers@.take(0) =~= Seq::<char>::empty());
    }
    while i < n
        invariant
            n == bootstrap_servers@.len(),
            i <= n,
            crate::text::views(done@).push(current@) == comma_pieces(bootstrap_servers@.take(i as int)),
        decreases n - i,
    {
        let ghost prefix = bootstrap_servers@.take(i as int);
        let ghost done_before = done@;
        let ghost current_before = current@;
        let c = bootstrap_servers.get_char(i);
        proof {
            lemma_comma_pieces_nonempty(prefix);
            assert(bootstrap_servers@.take(i + 1).drop_last() =~= prefix);
            assert(bootstrap_servers@.take(i + 1).last() == c);
        }
        if c == ',' {
            let mut finished = String::new();
            std::mem::swap(&mut finished, &mut current);
            done.push(finished);
            proof {
                assert(crate::text::views(done@) =~= crate::text::views(done_before).push(
                    current_before,
                ));
                assert(crate::text::views(done@).push(current@) =~= comma_pieces(prefix).push(
                    Seq::empty(),
                ));
            }
        } else {
            crate::text::push_char(&mut current, c);
            proof {
                let p = comma_pieces(prefix);
                assert(p.last() == current_before);
                assert(crate::text::views(done@).push(current@) =~= p.update(
                    p.len() - 1,
                    p.last().push(c),
                ));
            }
        }
        i = i + 1;
    }
    done.push(current);
    proof {
        assert(bootstrap_servers@.take(n as int) =~= bootstrap_servers@);
    }
    done
}


/// Splitting at the commas loses nothing: writing the pieces back with a comma between
/// neighbours gives the list of servers again.
pub proof fn lemma_split_then_join_is_identity(s: Seq<char>)
    ensures
        crate::text::joined(comma_pieces(s), ","@) == s,
    decreases s.len(),
{
    reveal_strlit(",");
    if s.len() > 0 {
        let init = s.drop_last();
        lemma_split_then_join_is_identity(init);
        lemma_comma_pieces_nonempty(init);
        let p = comma_pieces(init);
        assert(s =~= init.push(s.last()));
        if s.last() == ',' {
            let q = p.push(Seq::<char>::empty());
            assert(q.drop_last() =~= p);
            assert(crate::text::joined(q, ","@) =~= init + ","@ + Seq::<char>::empty());
        } else {
            let q = p.update(p.len() - 1, p.last().push(s.last()));
            if p.len() == 1 {
                assert(init =~= p[0]);
            } else {
                assert(q.drop_last() =~= p.drop_last());
                assert(crate::text::joined(p, ","@) == crate::text::joined(p.drop_last(), ","@) + ","@ + p.last());
            }
        }
    }
}


/// The offer of a provider's Kafka message for the UI (its discounted price still `-1.0`),
/// and the discount (bit pattern) of the provider's setting when the cache has one: the
/// caller applies it as `price * (1 - discount)`.
pub fn provider_offer(
    cache: &crate::services::ProviderSettingCache,
    message: crate::models::ProviderSymbolLocatesInfo,
) -> (r: (crate::models::ProviderSymbolLocatesInfoWithDiscountedPrice, Option<u64>))
    requires
        cache.wf(),
    ensures
        r.0 == crate::models::provider::offer_of(message),
        r.1 == (if cache@.contains_key(message.provider_id@) {
            Some(cache@[message.provider_id@].discount)
        } else {
            None
        }),
{
    let info = crate::models::ProviderSymbolLocatesInfoWithDiscountedPrice::from_message(message);
    let provider_settings = cache.get_provider_setting(info.provider_id.clone());
    let discount = match provider_settings {
        Some(setting) => Some(setting.discount),
        None => None,
    };
    (info, discount)
}


/// What a consumer loop does next.
#[derive(Clone, Copy, Debug, PartialEq, Eq, Structural)]
pub enum ConsumerAction {
    /// Leave the loop.
    Stop,
    /// Poll the topic.
    Poll,
    /// Process every message of the polled message sets, then commit the offsets.
    ProcessAndCommit,
}

/// The consumer loop's next step. At the top of the loop (`polled` is `None`) it stops once
/// shutdown is asked for and polls otherwise; after a poll that gave `Some(n)` message
/// sets it goes back to the top when there are none and processes them otherwise.
pub fn next_consumer_action(shutdown_requested: bool, polled: Option<usize>) -> (r: ConsumerAction)
    ensures
        r == (match polled {
            None => if shutdown_requested { ConsumerAction::Stop } else { ConsumerAction::Poll },
            Some(n) => if n == 0 {
                if shutdown_requested { ConsumerAction::Stop } else { ConsumerAction::Poll }
            } else {
                ConsumerAction::ProcessAndCommit
            },
        }),
{
    match polled {
        Some(n) => {
            if n > 0 {
                return ConsumerAction::ProcessAndCommit;
            }
        },
        None => {},
    }
    if shutdown_requested {
        ConsumerAction::Stop
    } else {
        ConsumerAction::Poll
    }
}

} // verus!
