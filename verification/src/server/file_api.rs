//! The first server's photo endpoints: listing, uploading and deleting
//! photos in the upload directory of the archive path.
use vstd::prelude::*;
use crate::fspath::{FsPath, PartView};
use crate::photo_api::{delete_from, photo_path_spec, upload_into, DeleteStep, FileDeleteForm,
    FileUploadForm, UploadStep};
use crate::photoset::{opt_path, FsOp};
use crate::photoset_api::{below, dir_below};
use crate::server::file_server::{paths_view, strings_view, strip_entries, stripped_names};
use crate::status::ApiStatus;

verus! {

/// The directory of the archive path that holds uploaded photos.
pub const UPLOAD_DIR: &'static str = "uploads";

/// The directory of the archive path that holds albums.
pub const ALBUM_DIR: &'static str = "albums";

/// A step of a photo listing.
pub enum PhotosStep {
    Done(Result<Vec<String>, ApiStatus>),
    /// Read the paths of the directory's entries (skipping entries that
    /// cannot be read); answer `None` when the directory cannot be read.
    ReadDir(FsPath, PhotosListed),
}

/// Waits for the entries of the upload directory.
pub struct PhotosListed {
    pub base: FsPath,
}

/// Answers a photo listing: reads the upload directory.
pub fn get_photos(server_path: &FsPath) -> (r: PhotosStep)
    ensures
        r matches PhotosStep::ReadDir(d, k) && d@ == below(server_path@, UPLOAD_DIR@) && k.base@ == server_path@,
{
    PhotosStep::ReadDir(dir_below(server_path, UPLOAD_DIR), PhotosListed { base: server_path.copy() })
}

impl PhotosListed {
    /// An unreadable directory is a server error; otherwise the photos are
    /// listed by their paths relative to the archive path.
    pub fn resume(self, paths: Option<Vec<FsPath>>) -> (r: PhotosStep)
        ensures
            paths is None ==> (r matches PhotosStep::Done(Err(x)) && x == ApiStatus::InternalServerError),
            paths matches Some(v) ==> (r matches PhotosStep::Done(Ok(names)) && strings_view(names@)
                == stripped_names(self.base@, paths_view(v@))),
    {
        match paths {
            Some(v) => PhotosStep::Done(Ok(strip_entries(&self.base, &v))),
            None => PhotosStep::Done(Err(ApiStatus::InternalServerError)),
        }
    }
}

/// Answers a photo upload into the upload directory (the steps go on as in
/// the photo API).
pub fn upload_photo(server_path: &FsPath, form: &FileUploadForm) -> (r: UploadStep)
    ensures
        r matches UploadStep::Run(FsOp::CreateDirAll(d), k) && d@ == below(server_path@, UPLOAD_DIR@)
            && k.photo_path@ == photo_path_spec(server_path@, UPLOAD_DIR@, form.filename@),
{
    let serve = Some(server_path.copy());
    assert(opt_path(serve) == Some(server_path@));
    upload_into(&serve, UPLOAD_DIR, form.filename.as_str())
}

/// Answers a photo deletion from the upload directory.
pub fn delete_photo(server_path: &FsPath, form: &FileDeleteForm) -> (r: DeleteStep)
    ensures
        r matches DeleteStep::CheckExists(p, k) && p@ == photo_path_spec(server_path@, UPLOAD_DIR@, form.filename@)
            && k.photo_path@ == p@,
{
    let serve = Some(server_path.copy());
    assert(opt_path(serve) == Some(server_path@));
    delete_from(&serve, UPLOAD_DIR, form.filename.as_str())
}

} // verus!
