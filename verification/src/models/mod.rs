//! The records this service receives, keeps and hands out.
//!
//! A price is a 64-bit IEEE-754 floating-point number; the library holds it by its bit
//! pattern (`f64::to_bits`), which it copies and never computes with. A date-time is a
//! [`Timestamp`](crate::timestamp::Timestamp).

pub mod enums;
pub mod quote;
pub mod locate;

pub use enums::{AssetType, CreatingType, InternalInventoryItemState, NotificationType, QuoteResponseStatusEnum};
pub use quote::{LocatorQuoteResponse, QuoteResponse, QuoteSourceInfo, QuoteSourceInfoKafka};
pub use locate::{LocateModel, LocateRequestModel};

pub mod provider;
pub use provider::{
    AutoDisabledInfo, ProviderSetting, ProviderSettingExtended, ProviderSymbolLocatesInfo,
    ProviderSymbolLocatesInfoWithDiscountedPrice,
};
pub mod notification;
pub use notification::{GroupedNotification, GroupedNotificationKafka};
pub mod inventory;
pub use inventory::{InternalInventoryItem, InternalInventoryItemKafka};
pub mod requests;
pub use requests::FirmProviderSettingRequest;
