//! The first server program: photos and photosets below a fixed archive
//! path, a raw file browser, and stubs for albums.

pub mod album_api;
pub mod config;
pub mod file_api;
pub mod file_server;
pub mod photoset_api;
pub mod request_guards;
