use vstd::prelude::*;

use crate::models::enums::QuoteResponseStatusEnum;
use crate::timestamp::Timestamp;

verus! {

/// One provider's part of a quote, as the reporting service and the UI spell it.
#[derive(Debug)]
pub struct QuoteSourceInfo {
    pub provider: String,
    pub source: String,
    /// Bit pattern of the price.
    pub price: u64,
    pub qty: i32,
    /// Bit pattern of the user price.
    pub user_price: u64,
    /// Bit pattern of the discounted price.
    pub discounted_price: u64,
}

impl Clone for QuoteSourceInfo {
    fn clone(&self) -> (r: Self)
        ensures
            r == *self,
    {
        QuoteSourceInfo {
            provider: self.provider.clone(),
            source: self.source.clone(),
            price: self.price,
            qty: self.qty,
            user_price: self.user_price,
            discounted_price: self.discounted_price,
        }
    }
}

/// One provider's part of a quote, as the Kafka topic spells it.
#[derive(Debug)]
pub struct QuoteSourceInfoKafka {
    pub provider: String,
    pub source: String,
    pub price: u64,
    pub qty: i32,
    pub user_price: u64,
    pub discounted_price: u64,
}

impl Clone for QuoteSourceInfoKafka {
    fn clone(&self) -> (r: Self)
        ensures
            r == *self,
    {
        QuoteSourceInfoKafka {
            provider: self.provider.clone(),
            source: self.source.clone(),
            price: self.price,
            qty: self.qty,
            user_price: self.user_price,
            discounted_price: self.discounted_price,
        }
    }
}

/// The same source, spelled for the UI: every field carries over.
pub open spec fn source_info_of(value: QuoteSourceInfoKafka) -> QuoteSourceInfo {
    QuoteSourceInfo {
        provider: value.provider,
        source: value.source,
        price: value.price,
        qty: value.qty,
        user_price: value.user_price,
        discounted_price: value.discounted_price,
    }
}

impl QuoteSourceInfo {
    /// Field-by-field copy of a source from the Kafka spelling.
    pub fn from(value: QuoteSourceInfoKafka) -> (r: Self)
        ensures
            r == source_info_of(value),
    {
        QuoteSourceInfo {
            provider: value.provider,
            source: value.source,
            price: value.price,
            qty: value.qty,
            user_price: value.user_price,
            discounted_price: value.discounted_price,
        }
    }
}

/// Copies a list of sources element by element.
pub fn clone_sources(v: &Vec<QuoteSourceInfo>) -> (r: Vec<QuoteSourceInfo>)
    ensures
        r@ == v@,
{
    let mut r: Vec<QuoteSourceInfo> = Vec::new();
    let mut i: usize = 0;
    while i < v.len()
        invariant
            i <= v.len(),
            r@ == v@.take(i as int),
        decreases v.len() - i,
    {
        r.push(v[i].clone());
        i = i + 1;
        assert(r@ =~= v@.take(i as int));
    }
    assert(v@.take(v.len() as int) =~= v@);
    r
}

} // verus!

verus! {

/// A quote response as the locator publishes it on Kafka.
#[derive(Debug)]
pub struct QuoteResponse {
    pub id: String,
    pub firm_id: String,
    pub account_id: String,
    pub symbol: String,
    pub status: QuoteResponseStatusEnum,
    pub error_message: Option<String>,
    pub req_qty: i32,
    pub fill_qty: Option<i32>,
    /// Bit pattern of the price.
    pub price: Option<u64>,
    pub sources: Option<Vec<QuoteSourceInfoKafka>>,
    pub time: Timestamp,
    pub details_json: String,
}

/// A quote response as the reporting service returns it and as this service keeps it.
#[derive(Debug)]
pub struct LocatorQuoteResponse {
    pub id: String,
    pub firm_id: String,
    pub account_id: String,
    pub symbol: String,
    pub status: QuoteResponseStatusEnum,
    pub time: Timestamp,
    pub error_message: Option<String>,
    pub req_qty: i32,
    pub fill_qty: Option<i32>,
    /// Bit pattern of the price.
    pub price: Option<u64>,
    /// Bit pattern of the price the sources were filled at, weighted by quantity.
    pub tz_price: u64,
    /// The names of the sources, each once, separated by `", "`.
    pub source: String,
    pub sources: Vec<QuoteSourceInfo>,
}

/// The sources of a Kafka quote response; none when the field is absent.
pub open spec fn kafka_sources(value: QuoteResponse) -> Seq<QuoteSourceInfoKafka> {
    match value.sources {
        Some(v) => v@,
        None => Seq::empty(),
    }
}

/// The `source` names of a list of Kafka sources.
pub open spec fn kafka_source_names(s: Seq<QuoteSourceInfoKafka>) -> Seq<Seq<char>> {
    s.map_values(|x: QuoteSourceInfoKafka| x.source@)
}

/// The `source` names of a list of sources.
pub open spec fn source_names(s: Seq<QuoteSourceInfo>) -> Seq<Seq<char>> {
    s.map_values(|x: QuoteSourceInfo| x.source@)
}

/// The divisor of the quantity-weighted price: the filled quantity, when there is one and
/// it is positive. Otherwise the weighted price is zero.
pub fn tz_price_divisor(fill_qty: Option<i32>) -> (r: Option<i32>)
    ensures
        r == (match fill_qty {
            Some(q) => if q > 0 { Some(q) } else { None },
            None => None,
        }),
{
    match fill_qty {
        Some(q) => if q > 0 { Some(q) } else { None },
        None => None,
    }
}

fn source_name_list(sources: &Vec<QuoteSourceInfoKafka>) -> (r: Vec<String>)
    ensures
        crate::text::views(r@) == kafka_source_names(sources@),
{
    let mut r: Vec<String> = Vec::new();
    let mut i: usize = 0;
    while i < sources.len()
        invariant
            i <= sources.len(),
            crate::text::views(r@) == kafka_source_names(sources@).take(i as int),
        decreases sources.len() - i,
    {
        let ghost before = r@;
        r.push(sources[i].source.clone());
        i = i + 1;
        assert(r@ == before.push(sources@[i - 1].source));
        assert(crate::text::views(before).len() == before.len());
        assert(kafka_source_names(sources@).len() == sources@.len());
        assert(before.len() == i - 1);
        assert(crate::text::views(r@).len() == i);
        assert(crate::text::views(r@) =~= kafka_source_names(sources@).take(i as int)) by {
            assert forall|j: int| 0 <= j < i implies #[trigger] crate::text::views(r@)[j]
                == kafka_source_names(sources@)[j] by {
                if j < i - 1 {
                    assert(crate::text::views(before)[j] == kafka_source_names(sources@)[j]);
                }
            }
        }
    }
    assert(kafka_source_names(sources@).take(sources.len() as int) =~= kafka_source_names(sources@));
    r
}

fn convert_sources(sources: Vec<QuoteSourceInfoKafka>) -> (r: Vec<QuoteSourceInfo>)
    ensures
        r@ == sources@.map_values(|x: QuoteSourceInfoKafka| source_info_of(x)),
{
    let mut r: Vec<QuoteSourceInfo> = Vec::new();
    let mut i: usize = 0;
    while i < sources.len()
        invariant
            i <= sources.len(),
            r@ == sources@.map_values(|x: QuoteSourceInfoKafka| source_info_of(x)).take(i as int),
        decreases sources.len() - i,
    {
        r.push(QuoteSourceInfo::from(sources[i].clone()));
        i = i + 1;
        assert(r@ =~= sources@.map_values(|x: QuoteSourceInfoKafka| source_info_of(x)).take(
            i as int,
        ));
    }
    assert(sources@.map_values(|x: QuoteSourceInfoKafka| source_info_of(x)).take(
        sources.len() as int,
    ) =~= sources@.map_values(|x: QuoteSourceInfoKafka| source_info_of(x)));
    r
}

impl LocatorQuoteResponse {
    /// The quote response of a Kafka message. Its `source` names every source once, in the
    /// order of first occurrence, separated by `", "`; `tz_price` is the weighted price the
    /// caller computed (see [`tz_price_divisor`]); every other field carries over.
    pub fn from_quote_response(value: QuoteResponse, tz_price: u64) -> (r: Self)
        ensures
            r.id == value.id,
            r.firm_id == value.firm_id,
            r.account_id == value.account_id,
            r.symbol == value.symbol,
            r.status == value.status,
            r.time == value.time,
            r.error_message == value.error_message,
            r.req_qty == value.req_qty,
            r.fill_qty == value.fill_qty,
            r.price == value.price,
            r.tz_price == tz_price,
            r.source@ == crate::text::joined(
                crate::text::distinct(kafka_source_names(kafka_sources(value))),
                ", "@,
            ),
            r.sources@ == kafka_sources(value).map_values(|x: QuoteSourceInfoKafka| source_info_of(x)),
    {
        let sources = match value.sources {
            Some(sources) => sources,
            None => Vec::new(),
        };
        let names = source_name_list(&sources);
        let unique = crate::text::distinct_strings(&names);
        let source = crate::text::join(&unique, ", ");
        LocatorQuoteResponse {
            id: value.id,
            firm_id: value.firm_id,
            account_id: value.account_id,
            symbol: value.symbol,
            status: value.status,
            time: value.time,
            error_message: value.error_message,
            req_qty: value.req_qty,
            fill_qty: value.fill_qty,
            price: value.price,
            tz_price,
            source,
            sources: convert_sources(sources),
        }
    }
}

} // verus!
