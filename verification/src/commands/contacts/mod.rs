pub mod list;
pub mod search;
