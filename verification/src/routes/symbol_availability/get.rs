use vstd::prelude::*;

verus! {

/// The symbol named in the query of a request.
#[derive(Debug)]
pub struct QueryInfo {
    pub symbol: String,
}

} // verus!
