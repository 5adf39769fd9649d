pub mod get;
pub mod post;

pub use get::firm_provider_settings_path;
pub use post::replace_firm_provider_settings_path;
