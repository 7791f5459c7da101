pub mod create;
pub mod list;
pub mod types;
