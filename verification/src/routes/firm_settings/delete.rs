use vstd::prelude::*;

verus! {

/// The firm named in the path of a request.
#[derive(Debug)]
pub struct PathInfo {
    pub firm_name: String,
}

/// Path of the locator's setting of firm `firm_name`.
pub fn firm_setting_path(firm_name: &str) -> (r: String)
    ensures
        r@ == "/api/settings/firm/"@ + firm_name@,
{
    let mut r = String::from_str("/api/settings/firm/");
    r.append(firm_name);
    r
}

} // verus!
