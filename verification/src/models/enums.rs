use vstd::prelude::*;

verus! {

/// What a provider offers: a locate or a pre-borrow.
#[derive(Clone, Copy, Debug, PartialEq, Eq, Structural)]
pub enum AssetType {
    Locate,
    PreBorrow,
}

/// How an internal inventory item came to be.
#[derive(Clone, Copy, Debug, PartialEq, Eq, Structural)]
pub enum CreatingType {
    Unknown,
    SingleEntry,
    MultiEntry,
    Buy,
    CoverNegative,
    ReturnedOneTimePreBorrow,
    Overbuy,
    UnwantedPartial,
}

/// Lifecycle state of an internal inventory item.
#[derive(Clone, Copy, Debug, PartialEq, Eq, Structural)]
pub enum InternalInventoryItemState {
    Active,
    Inactive,
    Deleted,
}

/// Severity of a grouped notification.
#[derive(Clone, Copy, Debug, PartialEq, Eq, Structural)]
pub enum NotificationType {
    Warning,
    Error,
    Critical,
}

/// Status of a quote response from the locator.
#[derive(Clone, Copy, Debug, PartialEq, Eq, Structural)]
pub enum QuoteResponseStatusEnum {
    Cancelled,
    Expired,
    Failed,
    RejectedBadRequest,
    RejectedDuplicate,
    WaitingAcceptance,
    Partial,
    Filled,
    NoInventory,
    AutoAccepted,
    AutoRejected,
    RequestAccepted,
    RejectedProhibited,
}

} // verus!
