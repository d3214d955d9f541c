//! Watched movies, from the RSS feed of a Letterboxd account.

pub mod feed;
pub mod fetch;
pub mod handler;
pub mod item;
pub mod merge;
pub mod movie;
pub mod order;
