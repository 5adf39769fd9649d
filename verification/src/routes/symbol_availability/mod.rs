pub mod get;
