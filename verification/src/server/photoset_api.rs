//! The first server's photoset endpoints: creation and removal below the
//! photoset directory of the archive path, with cleaned path pieces.
use vstd::prelude::*;
use crate::fspath::FsPath;
use crate::photoset::opt_path;
use crate::photoset_api::{photoset_api_path_spec, CreateStep, DeleteStep};
use crate::photoset::FsOp;
use crate::server::request_guards::UserAuth;
use crate::status::ApiStatus;

pub use crate::photoset_api::root_guard_check;

verus! {

/// The form of a photoset update: the photoset's path.
#[derive(Debug)]
pub struct PhotoSetUpdateForm {
    pub photoset_path: String,
}

/// Answers a creation request below the archive path `server_path` (the
/// steps go on as in the later photoset API).
pub fn create_photoset(server_path: &FsPath, photoset: &FsPath, _userauth: UserAuth) -> (r: CreateStep)
    ensures
        match photoset_api_path_spec(photoset@, Some(server_path@)) {
            Ok(p) => r matches CreateStep::CheckTaken(q, k) && q@ == p && k.path@ == p,
            Err(e) => r matches CreateStep::Done(Err(x)) && x == e,
        },
{
    let serve = Some(server_path.copy());
    assert(opt_path(serve) == Some(server_path@));
    crate::photoset_api::create_photoset(photoset, &serve)
}

/// Updating a photoset: nothing happens.
pub fn update_photoset(_user_auth: UserAuth) {
}

/// Assigning photos to a photoset: nothing happens.
pub fn assign_photoset(_photoset: FsPath, _userauth: UserAuth) {
}

/// Answers a removal request below the archive path `server_path`: the
/// photoset directory must be empty.
pub fn delete_photoset(server_path: &FsPath, photoset: &FsPath, _userauth: UserAuth) -> (r: DeleteStep)
    ensures
        match photoset_api_path_spec(photoset@, Some(server_path@)) {
            Ok(p) => r matches DeleteStep::Run(FsOp::RemoveDir(q), _) && q@ == p,
            Err(e) => r matches DeleteStep::Done(Err(x)) && x == e,
        },
{
    let serve = Some(server_path.copy());
    assert(opt_path(serve) == Some(server_path@));
    crate::photoset_api::delete_photoset(photoset, &serve)
}

} // verus!
