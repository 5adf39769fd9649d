use vstd::prelude::*;

verus! {

/// The firm named in the path of a request.
#[derive(Debug)]
pub struct PathInfo {
    pub firm_name: String,
}

/// Path of the locator's provider settings of the firm written as `firm_segment`.
pub fn firm_provider_settings_path(firm_segment: &str) -> (r: String)
    ensures
        r@ == "/api/settings/firm/"@ + firm_segment@ + "/provider"@,
{
    let mut r = String::from_str("/api/settings/firm/");
    r.append(firm_segment);
    r.append("/provider");
    r
}

} // verus!
