pub mod delete;
pub mod provider;

pub use delete::firm_setting_path;
pub use provider::{firm_provider_settings_path, replace_firm_provider_settings_path};
