pub mod batch_types;
pub mod update;
