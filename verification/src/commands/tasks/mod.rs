pub mod list;
pub mod types;
