//! Verified core of a small photo archive server: request-path checking,
//! byte-range handling, directory listings, upload naming and the decisions
//! that each HTTP handler takes between its file-system steps.

pub mod status;
pub mod text;
pub mod range;
pub mod fspath;
pub mod naming;
pub mod listing;
pub mod effects;
pub mod photoset;
pub mod auth;
pub mod config;
pub mod photoset_api;
pub mod photo_api;
pub mod consolidated;
pub mod server;
