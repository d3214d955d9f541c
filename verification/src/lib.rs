//! The rules of a small aggregation service for static sites: recently played
//! Spotify tracks, watched movies of a Letterboxd feed, and recorded URLs.
//!
//! Everything the service decides is here, as functions from plain values to
//! plain values; sockets, files, clocks and environment variables are the
//! caller's.

pub mod aggregator;
pub mod auth;
pub mod clock;
pub mod config;
pub mod letterboxd;
pub mod query;
pub mod redirect;
pub mod reply;
pub mod spotify;
pub mod startup;
pub mod text;
pub mod url_handlers;
