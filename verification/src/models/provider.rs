use vstd::prelude::*;

use crate::models::enums::AssetType;
use crate::timestamp::Timestamp;

verus! {

/// Which symbols a provider was switched off for.
#[derive(Debug)]
pub struct AutoDisabledInfo {
    pub symbols: Option<Vec<String>>,
}

/// How a provider's quotes are priced and routed.
#[derive(Debug)]
pub struct ProviderSetting {
    pub provider_id: String,
    pub name: String,
    /// Bit pattern of the multiplier.
    pub multiplier: u64,
    /// Bit pattern of the vig.
    pub vig: u64,
    /// Bit pattern of the discount, a fraction of the price.
    pub discount: u64,
    /// Bit pattern of the dynamic price multiplier.
    pub dynamic_price_multiplier: Option<u64>,
    pub active: bool,
    pub quote_request_topic: Option<String>,
    pub quote_response_topic: Option<String>,
    pub buy_request_topic: Option<String>,
    pub buy_response_topic: Option<String>,
}

/// A provider's setting as the locator service returns it.
#[derive(Debug)]
pub struct ProviderSettingExtended {
    pub provider_id: String,
    pub name: String,
    pub multiplier: u64,
    pub vig: u64,
    pub discount: u64,
    pub dynamic_price_multiplier: Option<u64>,
    pub active: bool,
    pub quote_request_topic: Option<String>,
    pub quote_response_topic: Option<String>,
    pub buy_request_topic: Option<String>,
    pub buy_response_topic: Option<String>,
    pub auto_disabled: Option<AutoDisabledInfo>,
}

impl Clone for ProviderSetting {
    fn clone(&self) -> (r: Self)
        ensures
            r == *self,
    {
        ProviderSetting {
            provider_id: self.provider_id.clone(),
            name: self.name.clone(),
            multiplier: self.multiplier,
            vig: self.vig,
            discount: self.discount,
            dynamic_price_multiplier: self.dynamic_price_multiplier,
            active: self.active,
            quote_request_topic: crate::models::locate::clone_optional_string(&self.quote_request_topic),
            quote_response_topic: crate::models::locate::clone_optional_string(&self.quote_response_topic),
            buy_request_topic: crate::models::locate::clone_optional_string(&self.buy_request_topic),
            buy_response_topic: crate::models::locate::clone_optional_string(&self.buy_response_topic),
        }
    }
}

/// The setting of an extended setting: every field but `auto_disabled`.
pub open spec fn setting_of(extended: ProviderSettingExtended) -> ProviderSetting {
    ProviderSetting {
        provider_id: extended.provider_id,
        name: extended.name,
        multiplier: extended.multiplier,
        vig: extended.vig,
        discount: extended.discount,
        dynamic_price_multiplier: extended.dynamic_price_multiplier,
        active: extended.active,
        quote_request_topic: extended.quote_request_topic,
        quote_response_topic: extended.quote_response_topic,
        buy_request_topic: extended.buy_request_topic,
        buy_response_topic: extended.buy_response_topic,
    }
}

/// Drops `auto_disabled` from an extended setting.
pub fn map(extended: ProviderSettingExtended) -> (r: ProviderSetting)
    ensures
        r == setting_of(extended),
        r.provider_id == extended.provider_id,
        r.name == extended.name,
        r.multiplier == extended.multiplier,
        r.vig == extended.vig,
        r.discount == extended.discount,
        r.dynamic_price_multiplier == extended.dynamic_price_multiplier,
        r.active == extended.active,
        r.quote_request_topic == extended.quote_request_topic,
        r.quote_response_topic == extended.quote_response_topic,
        r.buy_request_topic == extended.buy_request_topic,
        r.buy_response_topic == extended.buy_response_topic,
{
    ProviderSetting {
        provider_id: extended.provider_id,
        name: extended.name,
        multiplier: extended.multiplier,
        vig: extended.vig,
        discount: extended.discount,
        dynamic_price_multiplier: extended.dynamic_price_multiplier,
        active: extended.active,
        quote_request_topic: extended.quote_request_topic,
        quote_response_topic: extended.quote_response_topic,
        buy_request_topic: extended.buy_request_topic,
        buy_response_topic: extended.buy_response_topic,
    }
}

/// A provider's offer for a symbol, as the provider publishes it on Kafka.
#[derive(Debug)]
pub struct ProviderSymbolLocatesInfo {
    pub symbol: String,
    pub quantity: i32,
    /// Bit pattern of the price.
    pub price: u64,
    pub provider_id: String,
    pub provider_name: String,
    pub asset_type: AssetType,
    pub date_time: Timestamp,
}

/// A provider's offer for a symbol, with the price after the provider's discount, as the
/// UI shows it.
#[derive(Debug)]
pub struct ProviderSymbolLocatesInfoWithDiscountedPrice {
    pub symbol: String,
    pub quantity: i32,
    /// Bit pattern of the price.
    pub price: u64,
    /// Bit pattern of the discounted price.
    pub discounted_price: u64,
    pub provider_id: String,
    pub provider_name: String,
    pub asset_type: AssetType,
    pub date_time: Timestamp,
}

/// Bit pattern of `-1.0`, the discounted price of an offer whose provider is not known.
pub const UNKNOWN_DISCOUNTED_PRICE: u64 = 0xBFF0_0000_0000_0000;

/// The offer for the UI, with the discounted price not known yet.
pub open spec fn offer_of(message: ProviderSymbolLocatesInfo) -> ProviderSymbolLocatesInfoWithDiscountedPrice {
    ProviderSymbolLocatesInfoWithDiscountedPrice {
        symbol: message.symbol,
        quantity: message.quantity,
        price: message.price,
        discounted_price: UNKNOWN_DISCOUNTED_PRICE,
        provider_id: message.provider_id,
        provider_name: message.provider_name,
        asset_type: message.asset_type,
        date_time: message.date_time,
    }
}

impl ProviderSymbolLocatesInfoWithDiscountedPrice {
    /// The offer of a Kafka message; its discounted price is `-1.0` until the provider's
    /// discount is applied.
    pub fn from_message(message: ProviderSymbolLocatesInfo) -> (r: Self)
        ensures
            r == offer_of(message),
            r.symbol == message.symbol,
            r.quantity == message.quantity,
            r.price == message.price,
            r.discounted_price == UNKNOWN_DISCOUNTED_PRICE,
            r.provider_id == message.provider_id,
            r.provider_name == message.provider_name,
            r.asset_type == message.asset_type,
            r.date_time == message.date_time,
    {
        ProviderSymbolLocatesInfoWithDiscountedPrice {
            provider_id: message.provider_id,
            price: message.price,
            quantity: message.quantity,
            symbol: message.symbol,
            date_time: message.date_time,
            provider_name: message.provider_name,
            asset_type: message.asset_type,
            discounted_price: UNKNOWN_DISCOUNTED_PRICE,
        }
    }
}

/// A stored provider setting keeps every field of the locator's setting; only
/// `auto_disabled` is dropped.
pub proof fn lemma_setting_keeps_fields(extended: ProviderSettingExtended)
    ensures
        setting_of(extended).provider_id == extended.provider_id,
        setting_of(extended).name == extended.name,
        setting_of(extended).multiplier == extended.multiplier,
        setting_of(extended).vig == extended.vig,
        setting_of(extended).discount == extended.discount,
        setting_of(extended).dynamic_price_multiplier == extended.dynamic_price_multiplier,
        setting_of(extended).active == extended.active,
        setting_of(extended).quote_request_topic == extended.quote_request_topic,
        setting_of(extended).quote_response_topic == extended.quote_response_topic,
        setting_of(extended).buy_request_topic == extended.buy_request_topic,
        setting_of(extended).buy_response_topic == extended.buy_response_topic,
{
}

/// The offer shown to the UI carries every field of the provider's message, the asset type
/// included; only its discounted price is set, to `-1.0`.
pub proof fn lemma_offer_keeps_fields(message: ProviderSymbolLocatesInfo)
    ensures
        offer_of(message).symbol == message.symbol,
        offer_of(message).quantity == message.quantity,
        offer_of(message).price == message.price,
        offer_of(message).discounted_price == 0xBFF0_0000_0000_0000u64,
        offer_of(message).provider_id == message.provider_id,
        offer_of(message).provider_name == message.provider_name,
        offer_of(message).asset_type == message.asset_type,
        offer_of(message).date_time == message.date_time,
{
}

} // verus!
