//! Recently played tracks, from the Spotify Web API.

pub mod artists;
pub mod diagnose;
pub mod genres;
pub mod handler;
pub mod history;
pub mod model;
pub mod recent;
pub mod report;
pub mod state;
pub mod token;
pub mod track;
