use vstd::prelude::*;

use crate::models::enums::{AssetType, CreatingType, InternalInventoryItemState};
use crate::timestamp::Timestamp;

verus! {

/// An item of the internal inventory as the reporting topic publishes it.
#[derive(Debug)]
pub struct InternalInventoryItemKafka {
    pub id: String,
    pub version: i32,
    pub symbol: String,
    pub quantity: i32,
    pub sold_quantity: i32,
    /// Bit pattern of the price.
    pub price: u64,
    pub source: String,
    pub asset_type: AssetType,
    pub creating_type: CreatingType,
    pub tag: Option<String>,
    pub covered_inv_item_id: Option<String>,
    pub status: InternalInventoryItemState,
    pub created_at: Timestamp,
}

/// An item of the internal inventory as the UI shows it.
#[derive(Debug)]
pub struct InternalInventoryItem {
    pub id: String,
    pub version: i32,
    pub symbol: String,
    pub quantity: i32,
    pub sold_quantity: i32,
    /// Bit pattern of the price.
    pub price: u64,
    pub source: String,
    pub asset_type: AssetType,
    pub creating_type: CreatingType,
    pub tag: String,
    pub covered_inv_item_id: String,
    pub status: InternalInventoryItemState,
    pub created_at: Timestamp,
}

/// The text of an optional string; empty when absent.
pub open spec fn text_or_empty(s: Option<String>) -> Seq<char> {
    match s {
        Some(v) => v@,
        None => Seq::empty(),
    }
}

fn unwrap_or_empty(s: Option<String>) -> (r: String)
    ensures
        r@ == text_or_empty(s),
{
    match s {
        Some(v) => v,
        None => String::new(),
    }
}

impl InternalInventoryItem {
    /// The UI's spelling of an inventory item: an absent tag or covered item id becomes
    /// empty; every other field carries over.
    pub fn from(value: InternalInventoryItemKafka) -> (r: Self)
        ensures
            r.id == value.id,
            r.version == value.version,
            r.symbol == value.symbol,
            r.quantity == value.quantity,
            r.sold_quantity == value.sold_quantity,
            r.price == value.price,
            r.source == value.source,
            r.asset_type == value.asset_type,
            r.creating_type == value.creating_type,
            r.tag@ == text_or_empty(value.tag),
            r.covered_inv_item_id@ == text_or_empty(value.covered_inv_item_id),
            r.status == value.status,
            r.created_at == value.created_at,
    {
        InternalInventoryItem {
            id: value.id,
            version: value.version,
            symbol: value.symbol,
            quantity: value.quantity,
            sold_quantity: value.sold_quantity,
            price: value.price,
            source: value.source,
            asset_type: value.asset_type,
            creating_type: value.creating_type,
            tag: unwrap_or_empty(value.tag),
            covered_inv_item_id: unwrap_or_empty(value.covered_inv_item_id),
            status: value.status,
            created_at: value.created_at,
        }
    }
}

} // verus!
