pub mod clean_data;
pub mod running_env;

pub use clean_data::{clean_admin_ui_data, error_chain_fmt, AppError};
pub use running_env::get_running_env;
