use vstd::prelude::*;

verus! {

/// A request to ask the external providers for quotes of a symbol.
#[derive(Debug)]
pub struct QuoteExternalProvidersRequest {
    pub symbol: String,
}

} // verus!
