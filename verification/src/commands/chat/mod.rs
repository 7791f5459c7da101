pub mod messages;
pub mod spaces;
pub mod types;
