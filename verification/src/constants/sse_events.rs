//! Names of the server-sent events.

use vstd::prelude::*;

verus! {

pub const EXTERNAL_PROVIDER: &'static str = "external-provider";
pub const LOCATE_REQUEST: &'static str = "locate-request";
pub const LOCATE_REQUEST_HISTORY: &'static str = "locate-request-history";
pub const LOCATE: &'static str = "locate";
pub const LOCATE_HISTORY: &'static str = "locate-history";
pub const NOTIFICATION: &'static str = "notification";
pub const INTERNAL_INVENTORY: &'static str = "internal-inventory";

} // verus!
