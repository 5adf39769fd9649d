use vstd::prelude::*;

use crate::services::message_handler::param;
use crate::timestamp::{format_iso8601, iso8601_text, iso8601_writable, Timestamp};

verus! {

/// The symbol named in the query of a request.
#[derive(Debug)]
pub struct QueryInfo {
    pub symbol: String,
}

/// How many items of a symbol's internal inventory history are asked for.
pub const HISTORY_TAKE: &'static str = "10";

/// The query of a symbol's internal inventory history before the instant written as
/// `before_created_at`.
pub fn internal_inventory_history_query_from_text(symbol: &String, before_created_at: String) -> (r: Vec<(String, String)>)
    ensures
        r@.len() == 3,
        param(r@[0], "take"@, HISTORY_TAKE@),
        param(r@[1], "symbol"@, symbol@),
        param(r@[2], "beforeCreatedAt"@, before_created_at@),
{
    let mut r: Vec<(String, String)> = Vec::new();
    r.push((String::from_str("take"), String::from_str(HISTORY_TAKE)));
    r.push((String::from_str("symbol"), symbol.clone()));
    r.push((String::from_str("beforeCreatedAt"), before_created_at));
    r
}

/// The query of a symbol's internal inventory history before `before_created_at`.
pub fn internal_inventory_history_query(symbol: &String, before_created_at: Timestamp) -> (r: Vec<(String, String)>)
    requires
        iso8601_writable(before_created_at),
    ensures
        r@.len() == 3,
        param(r@[0], "take"@, HISTORY_TAKE@),
        param(r@[1], "symbol"@, symbol@),
        param(
            r@[2],
            "beforeCreatedAt"@,
            iso8601_text(before_created_at.unix_nanos as int, before_created_at.offset_seconds as int),
        ),
{
    internal_inventory_history_query_from_text(symbol, format_iso8601(before_created_at))
}

} // verus!
