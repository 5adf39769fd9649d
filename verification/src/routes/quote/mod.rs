pub mod external_providers;

pub use external_providers::QuoteExternalProvidersRequest;
