//! Roles of the users of the UI; a client group is named after a role.

use vstd::prelude::*;

verus! {

pub const ADMIN: &'static str = "Locator.Admin";
pub const VIEWER: &'static str = "Locator.View";
pub const PROVIDER: &'static str = "Broker.TZC";

} // verus!
