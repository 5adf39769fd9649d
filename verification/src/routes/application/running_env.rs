use vstd::prelude::*;

verus! {

/// The name of the environment this service runs in.
pub fn get_running_env() -> (r: String)
    ensures
        r@ == "Local"@,
{
    String::from_str("Local")
}

} // verus!
