pub mod current_user_roles;

pub use current_user_roles::{current_user_roles, UserRolesResponse};
