//! Where the services this one calls live, and the URLs of their endpoints.

use vstd::prelude::*;

verus! {

/// The services this one calls.
#[derive(Clone, Copy, Debug, PartialEq, Eq, Structural)]
pub enum ServicesEnum {
    Locator,
    FakeProvider,
    InternalInventory,
    Reporting,
    OrderBook,
}

/// The base URL of each service.
#[derive(Debug)]
pub struct ServicesSettings {
    pub locator: String,
    pub fake_provider: String,
    pub internal_inventory: String,
    pub reporting: String,
    pub order_book: String,
}

/// The base URL of `service`.
pub open spec fn base_url(settings: ServicesSettings, service: ServicesEnum) -> Seq<char> {
    match service {
        ServicesEnum::Locator => settings.locator@,
        ServicesEnum::FakeProvider => settings.fake_provider@,
        ServicesEnum::InternalInventory => settings.internal_inventory@,
        ServicesEnum::Reporting => settings.reporting@,
        ServicesEnum::OrderBook => settings.order_book@,
    }
}

impl ServicesSettings {
    /// The base URL of `service`.
    pub fn get_service_base_url(&self, service: ServicesEnum) -> (r: String)
        ensures
            r@ == base_url(*self, service),
    {
        match service {
            ServicesEnum::Locator => self.locator.clone(),
            ServicesEnum::FakeProvider => self.fake_provider.clone(),
            ServicesEnum::InternalInventory => self.internal_inventory.clone(),
            ServicesEnum::Reporting => self.reporting.clone(),
            ServicesEnum::OrderBook => self.order_book.clone(),
        }
    }

    /// The URL of the endpoint `path` of `service`: its base URL followed by the path.
    pub fn service_url(&self, service: ServicesEnum, path: &str) -> (r: String)
        ensures
            r@ == base_url(*self, service) + path@,
    {
        let mut url = self.get_service_base_url(service);
        url.append(path);
        url
    }
}

} // verus!
