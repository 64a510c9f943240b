//! The rules of a small task list service: its records, the views it answers
//! with, the search requests it accepts and the replies it gives.
pub mod calendar;
pub mod message;
pub mod models;
pub mod query;
pub mod response;
