use vstd::prelude::*;

verus! {

/// A firm's setting for one provider, as the UI sends it.
#[derive(Debug)]
pub struct FirmProviderSettingRequest {
    pub provider_id: String,
    pub provider_priority: Option<i32>,
    pub enabled: Option<bool>,
}

} // verus!
