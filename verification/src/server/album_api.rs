//! Album endpoints, which do nothing yet but answer `200 OK`.
use vstd::prelude::*;
use crate::server::request_guards::UserAuth;

verus! {

/// The form for creating an album (no fields yet).
#[derive(Debug)]
pub struct AlbumCreateForm {}

/// The form for updating an album (no fields yet).
#[derive(Debug)]
pub struct AlbumUpdateForm {}

/// The form for deleting an album (no fields yet).
#[derive(Debug)]
pub struct AlbumDeleteForm {}

/// Creating an album: nothing happens.
pub fn create_photoset(_user_auth: UserAuth) {
}

/// Updating an album: nothing happens.
pub fn update_photoset(_user_auth: UserAuth) {
}

/// Deleting an album: nothing happens.
pub fn delete_photoset(_user_auth: UserAuth) {
}

} // verus!
