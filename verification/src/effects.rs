//! What the file system answers, and how its failures become HTTP statuses.
use vstd::prelude::*;
use crate::status::ApiStatus;

verus! {

/// The kinds of `std::io::Error` that the handlers tell apart.
#[derive(Debug, Clone, Copy, PartialEq, Eq, Structural)]
pub enum FsErrorKind {
    PermissionDenied,
    NotFound,
    NotADirectory,
    IsADirectory,
    DirectoryNotEmpty,
    InvalidInput,
    Other,
}

/// The status for a failed `create_dir_all` of a photoset tree.
pub open spec fn create_dir_error_spec(kind: FsErrorKind) -> ApiStatus {
    match kind {
        FsErrorKind::PermissionDenied => ApiStatus::Forbidden,
        FsErrorKind::NotADirectory => ApiStatus::BadRequest,
        _ => ApiStatus::InternalServerError,
    }
}

/// The status for a failed directory creation in the handlers that only
/// single out a denied permission.
pub open spec fn create_tree_error_spec(kind: FsErrorKind) -> ApiStatus {
    match kind {
        FsErrorKind::PermissionDenied => ApiStatus::Forbidden,
        _ => ApiStatus::InternalServerError,
    }
}

/// The status for a failed removal of a photoset directory.
pub open spec fn remove_dir_error_spec(kind: FsErrorKind) -> ApiStatus {
    match kind {
        FsErrorKind::DirectoryNotEmpty => ApiStatus::Conflict,
        FsErrorKind::NotFound => ApiStatus::NotFound,
        FsErrorKind::PermissionDenied => ApiStatus::Forbidden,
        _ => ApiStatus::InternalServerError,
    }
}

/// The status for a failed removal of a file.
pub open spec fn remove_file_error_spec(kind: FsErrorKind) -> ApiStatus {
    match kind {
        FsErrorKind::NotFound => ApiStatus::NotFound,
        FsErrorKind::PermissionDenied => ApiStatus::Forbidden,
        FsErrorKind::IsADirectory => ApiStatus::BadRequest,
        FsErrorKind::InvalidInput => ApiStatus::BadRequest,
        _ => ApiStatus::InternalServerError,
    }
}

/// The status for a failed `create_dir_all` of a photoset tree.
pub fn create_dir_error(kind: FsErrorKind) -> (s: ApiStatus)
    ensures
        s == create_dir_error_spec(kind),
{
    match kind {
        FsErrorKind::PermissionDenied => ApiStatus::Forbidden,
        FsErrorKind::NotADirectory => ApiStatus::BadRequest,
        _ => ApiStatus::InternalServerError,
    }
}

/// The status for a failed directory creation that only singles out a
/// denied permission.
pub fn create_tree_error(kind: FsErrorKind) -> (s: ApiStatus)
    ensures
        s == create_tree_error_spec(kind),
{
    match kind {
        FsErrorKind::PermissionDenied => ApiStatus::Forbidden,
        _ => ApiStatus::InternalServerError,
    }
}

/// The status for a failed removal of a photoset directory.
pub fn remove_dir_error(kind: FsErrorKind) -> (s: ApiStatus)
    ensures
        s == remove_dir_error_spec(kind),
{
    match kind {
        FsErrorKind::DirectoryNotEmpty => ApiStatus::Conflict,
        FsErrorKind::NotFound => ApiStatus::NotFound,
        FsErrorKind::PermissionDenied => ApiStatus::Forbidden,
        _ => ApiStatus::InternalServerError,
    }
}

/// The status for a failed removal of a file.
pub fn remove_file_error(kind: FsErrorKind) -> (s: ApiStatus)
    ensures
        s == remove_file_error_spec(kind),
{
    match kind {
        FsErrorKind::NotFound => ApiStatus::NotFound,
        FsErrorKind::PermissionDenied => ApiStatus::Forbidden,
        FsErrorKind::IsADirectory => ApiStatus::BadRequest,
        FsErrorKind::InvalidInput => ApiStatus::BadRequest,
        _ => ApiStatus::InternalServerError,
    }
}

} // verus!
