use vstd::prelude::*;

use crate::models::enums::QuoteResponseStatusEnum;
use crate::models::quote::{clone_sources, source_names, LocatorQuoteResponse, QuoteSourceInfo};
use crate::text::joined;
use crate::timestamp::Timestamp;

verus! {

/// A locate request as the UI shows it.
#[derive(Debug)]
pub struct LocateRequestModel {
    pub id: String,
    pub account_id: String,
    pub firm_id: String,
    pub time: Timestamp,
    pub symbol: String,
    pub qty_req: i32,
    pub qty_offer: i32,
    /// Bit pattern of the price.
    pub price: u64,
    /// Bit pattern of the weighted price.
    pub tz_price: u64,
    pub source: String,
    pub source_details: Vec<QuoteSourceInfo>,
}

/// A locate as the UI shows it.
#[derive(Debug)]
pub struct LocateModel {
    pub quote_id: String,
    pub account_id: String,
    pub firm_id: String,
    pub time: Timestamp,
    pub symbol: String,
    pub req_qty: i32,
    pub qty_fill: i32,
    /// Bit pattern of the weighted price.
    pub tz_price: u64,
    /// Bit pattern of the price the user pays.
    pub user_price: u64,
    pub status: QuoteResponseStatusEnum,
    pub error_message: Option<String>,
    pub source: String,
    pub source_details: Vec<QuoteSourceInfo>,
}

/// Copies an optional string.
pub fn clone_optional_string(s: &Option<String>) -> (r: Option<String>)
    ensures
        r == *s,
{
    match s {
        Some(v) => Some(v.clone()),
        None => None,
    }
}

/// What a locate request holds, with its text and lists as sequences.
pub struct LocateRequestView {
    pub id: Seq<char>,
    pub account_id: Seq<char>,
    pub firm_id: Seq<char>,
    pub time: Timestamp,
    pub symbol: Seq<char>,
    pub qty_req: i32,
    pub qty_offer: i32,
    pub price: u64,
    pub tz_price: u64,
    pub source: Seq<char>,
    pub source_details: Seq<QuoteSourceInfo>,
}

/// What a locate holds, with its text and lists as sequences.
pub struct LocateView {
    pub quote_id: Seq<char>,
    pub account_id: Seq<char>,
    pub firm_id: Seq<char>,
    pub time: Timestamp,
    pub symbol: Seq<char>,
    pub req_qty: i32,
    pub qty_fill: i32,
    pub tz_price: u64,
    pub user_price: u64,
    pub status: QuoteResponseStatusEnum,
    pub error_message: Option<Seq<char>>,
    pub source: Seq<char>,
    pub source_details: Seq<QuoteSourceInfo>,
}

/// The view of an optional string.
pub open spec fn optional_view(s: Option<String>) -> Option<Seq<char>> {
    match s {
        Some(v) => Some(v@),
        None => None,
    }
}

impl View for LocateRequestModel {
    type V = LocateRequestView;

    open spec fn view(&self) -> LocateRequestView {
        LocateRequestView {
            id: self.id@,
            account_id: self.account_id@,
            firm_id: self.firm_id@,
            time: self.time,
            symbol: self.symbol@,
            qty_req: self.qty_req,
            qty_offer: self.qty_offer,
            price: self.price,
            tz_price: self.tz_price,
            source: self.source@,
            source_details: self.source_details@,
        }
    }
}

impl View for LocateModel {
    type V = LocateView;

    open spec fn view(&self) -> LocateView {
        LocateView {
            quote_id: self.quote_id@,
            account_id: self.account_id@,
            firm_id: self.firm_id@,
            time: self.time,
            symbol: self.symbol@,
            req_qty: self.req_qty,
            qty_fill: self.qty_fill,
            tz_price: self.tz_price,
            user_price: self.user_price,
            status: self.status,
            error_message: optional_view(self.error_message),
            source: self.source@,
            source_details: self.source_details@,
        }
    }
}

impl Clone for LocateRequestModel {
    fn clone(&self) -> (r: Self)
        ensures
            r@ == self@,
    {
        LocateRequestModel {
            id: self.id.clone(),
            account_id: self.account_id.clone(),
            firm_id: self.firm_id.clone(),
            time: self.time,
            symbol: self.symbol.clone(),
            qty_req: self.qty_req,
            qty_offer: self.qty_offer,
            price: self.price,
            tz_price: self.tz_price,
            source: self.source.clone(),
            source_details: clone_sources(&self.source_details),
        }
    }
}

impl Clone for LocateModel {
    fn clone(&self) -> (r: Self)
        ensures
            r@ == self@,
    {
        LocateModel {
            quote_id: self.quote_id.clone(),
            account_id: self.account_id.clone(),
            firm_id: self.firm_id.clone(),
            time: self.time,
            symbol: self.symbol.clone(),
            req_qty: self.req_qty,
            qty_fill: self.qty_fill,
            tz_price: self.tz_price,
            user_price: self.user_price,
            status: self.status,
            error_message: clone_optional_string(&self.error_message),
            source: self.source.clone(),
            source_details: clone_sources(&self.source_details),
        }
    }
}

/// The value of an optional quantity, zero when absent.
pub open spec fn qty_or_zero(q: Option<i32>) -> i32 {
    match q {
        Some(v) => v,
        None => 0,
    }
}

/// The bit pattern of an optional price; the bits of `0.0` (all zero) when absent.
pub open spec fn price_or_zero(p: Option<u64>) -> u64 {
    match p {
        Some(v) => v,
        None => 0,
    }
}

/// The locate request of `message`, at time `time`: the quantities and prices of the
/// message (zero where absent), all its sources, and their names joined by `", "`.
pub open spec fn request_model_of(message: LocatorQuoteResponse, time: Timestamp) -> LocateRequestView {
    LocateRequestView {
        id: message.id@,
        account_id: message.account_id@,
        firm_id: message.firm_id@,
        time: time,
        symbol: message.symbol@,
        qty_req: message.req_qty,
        qty_offer: qty_or_zero(message.fill_qty),
        price: price_or_zero(message.price),
        tz_price: message.tz_price,
        source: joined(source_names(message.sources@), ", "@),
        source_details: message.sources@,
    }
}

/// The locate of `message`: its fields, with the fill quantity and price zero where absent.
pub open spec fn locate_model_of(message: LocatorQuoteResponse) -> LocateView {
    LocateView {
        quote_id: message.id@,
        account_id: message.account_id@,
        firm_id: message.firm_id@,
        time: message.time,
        symbol: message.symbol@,
        req_qty: message.req_qty,
        qty_fill: qty_or_zero(message.fill_qty),
        tz_price: message.tz_price,
        user_price: price_or_zero(message.price),
        status: message.status,
        error_message: optional_view(message.error_message),
        source: message.source@,
        source_details: message.sources@,
    }
}

/// The locate request filed for a response carries the response's fields: its id, account,
/// firm and symbol, its requested quantity, its fill quantity and price (zero where absent),
/// its weighted price and all its sources; its time is the time it is filed at.
pub proof fn lemma_request_carries_response(message: LocatorQuoteResponse, time: Timestamp)
    ensures
        request_model_of(message, time).id == message.id@,
        request_model_of(message, time).account_id == message.account_id@,
        request_model_of(message, time).firm_id == message.firm_id@,
        request_model_of(message, time).symbol == message.symbol@,
        request_model_of(message, time).time == time,
        request_model_of(message, time).qty_req == message.req_qty,
        message.fill_qty matches Some(q) ==> request_model_of(message, time).qty_offer == q,
        message.fill_qty is None ==> request_model_of(message, time).qty_offer == 0,
        message.price matches Some(p) ==> request_model_of(message, time).price == p,
        message.price is None ==> request_model_of(message, time).price == 0,
        request_model_of(message, time).tz_price == message.tz_price,
        request_model_of(message, time).source_details == message.sources@,
{
}

/// The locate filed for a response carries the response's fields: id, time, account, firm,
/// symbol, requested quantity, weighted price, status, error, source and sources, with the
/// fill quantity and the user price taken from the response (zero where absent).
pub proof fn lemma_locate_carries_response(message: LocatorQuoteResponse)
    ensures
        locate_model_of(message).quote_id == message.id@,
        locate_model_of(message).time == message.time,
        locate_model_of(message).account_id == message.account_id@,
        locate_model_of(message).firm_id == message.firm_id@,
        locate_model_of(message).symbol == message.symbol@,
        locate_model_of(message).req_qty == message.req_qty,
        message.fill_qty matches Some(q) ==> locate_model_of(message).qty_fill == q,
        message.fill_qty is None ==> locate_model_of(message).qty_fill == 0,
        message.price matches Some(p) ==> locate_model_of(message).user_price == p,
        message.price is None ==> locate_model_of(message).user_price == 0,
        locate_model_of(message).tz_price == message.tz_price,
        locate_model_of(message).status == message.status,
        message.error_message matches Some(e) ==> locate_model_of(message).error_message == Some(e@),
        message.error_message is None ==> locate_model_of(message).error_message is None,
        locate_model_of(message).source == message.source@,
        locate_model_of(message).source_details == message.sources@,
{
}

} // verus!
