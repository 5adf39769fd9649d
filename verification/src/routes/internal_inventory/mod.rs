pub mod get_history;

pub use get_history::{internal_inventory_history_query, internal_inventory_history_query_from_text};
