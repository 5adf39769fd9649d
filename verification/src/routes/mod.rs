//! What the HTTP endpoints of this service decide: which service and path they call, with
//! which query, and what they answer.

use vstd::prelude::*;

pub mod application;
pub mod auth;
pub mod firm_settings;
pub mod internal_inventory;
pub mod quote;
pub mod symbol_availability;

verus! {

/// Path of the locator's default symbol setting.
pub const DEFAULT_SYMBOL_SETTING_PATH: &'static str = "/api/settings/default/symbol";

/// Path of the locator's firm settings.
pub const FIRM_SETTINGS_PATH: &'static str = "/api/settings/firm";

/// Path of the locator's provider settings.
pub const PROVIDER_SETTINGS_PATH: &'static str = "/api/settings/provider";

/// Path of the locator's pinger of external providers.
pub const TRIGGER_PINGER_PATH: &'static str = "/api/locator/trigger-pinger";

/// Path of the locator's symbol availability.
pub const SYMBOL_AVAILABILITY_PATH: &'static str = "/api/symbols/availability";

/// Path of the reporting service's internal inventory history.
pub const INTERNAL_INVENTORY_HISTORY_PATH: &'static str = "/api/internal-inventory/items/history";

/// Path of the reporting service's quote responses.
pub const QUOTE_RESPONSES_PATH: &'static str = "/api/report/data/quote/responses";

/// The query that names a symbol.
pub fn symbol_query(symbol: &String) -> (r: Vec<(String, String)>)
    ensures
        r@.len() == 1,
        r@[0].0@ == "symbol"@,
        r@[0].1@ == symbol@,
{
    let mut r: Vec<(String, String)> = Vec::new();
    r.push((String::from_str("symbol"), symbol.clone()));
    r
}

} // verus!
