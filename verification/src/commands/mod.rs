pub mod calendar;
pub mod chat;
pub mod contacts;
pub mod drive;
pub mod gmail;
pub mod slides;
pub mod tasks;
