//! Photos: uploading a photo into the photo directory under a cleaned name,
//! and deleting one by name.
use vstd::prelude::*;
use crate::fspath::{components_of, join_spec, lemma_plain_name_components, FsPath, PartView};
use crate::naming::{lemma_sanitized_is_plain_name, sanitize_name, sanitized};
use crate::photoset::{opt_path, FsOp};
use crate::photoset_api::{below, dir_below, PHOTO_DIR};
use crate::status::ApiStatus;
use crate::effects::FsErrorKind;

verus! {

/// The form of a photo upload: the name to store it under. (The uploaded
/// file itself stays with the server.)
#[derive(Debug)]
pub struct FileUploadForm {
    pub filename: String,
}

/// The form of a photo deletion: the name of the photo.
#[derive(Debug)]
pub struct FileDeleteForm {
    pub filename: String,
}

/// The path of the photo called `name` (cleaned) in the directory `dir`
/// below `root`.
pub open spec fn photo_path_spec(root: Seq<PartView>, dir: Seq<char>, name: Seq<char>) -> Seq<PartView> {
    join_spec(below(root, dir), components_of(sanitized(name)))
}

/// A photo path lies in its photo directory: it is the directory itself
/// (when the name cleans down to nothing) or one plain name inside it.
pub proof fn lemma_photo_stays_in_directory(root: Seq<PartView>, dir: Seq<char>, name: Seq<char>)
    ensures
        ({
            let p = photo_path_spec(root, dir, name);
            ||| p == below(root, dir)
            ||| p == below(root, dir).push(PartView::Normal(sanitized(name)))
        }),
{
    lemma_sanitized_is_plain_name(name);
    lemma_plain_name_components(sanitized(name));
    let d = below(root, dir);
    if sanitized(name).len() == 0 {
        assert(d + Seq::<PartView>::empty() =~= d);
    } else {
        assert(d + seq![PartView::Normal(sanitized(name))] =~= d.push(PartView::Normal(sanitized(name))));
    }
}

/// A step of an upload request.
pub enum UploadStep {
    Done(Result<ApiStatus, ApiStatus>),
    /// Run the operation (creating the photo directory) and answer its
    /// outcome.
    Run(FsOp, UploadDirMade),
    /// Answer whether something exists at the photo's path.
    CheckTaken(FsPath, UploadChecked),
    /// Move the uploaded file to the path; answer whether that worked.
    MoveUpload(FsPath, UploadMoved),
}

/// Waits for the photo directory.
pub struct UploadDirMade {
    pub photo_path: FsPath,
}

/// Waits to learn whether the photo's path is taken.
pub struct UploadChecked {
    pub photo_path: FsPath,
}

/// Waits for the uploaded file to be moved.
pub struct UploadMoved;

/// Answers an upload into `dir` below `root`: cleans the name and makes
/// sure the directory exists.
pub fn upload_into(root: &Option<FsPath>, dir: &str, filename: &str) -> (r: UploadStep)
    ensures
        match opt_path(*root) {
            None => r matches UploadStep::Done(Err(x)) && x == ApiStatus::InternalServerError,
            Some(rt) => r matches UploadStep::Run(FsOp::CreateDirAll(d), k) && d@ == below(rt, dir@)
                && k.photo_path@ == photo_path_spec(rt, dir@, filename@),
        },
{
    let clean = sanitize_name(filename);
    let rt = match root {
        Some(rt) => rt,
        None => return UploadStep::Done(Err(ApiStatus::InternalServerError)),
    };
    let photo_dir = dir_below(rt, dir);
    let photo_path = photo_dir.join(&FsPath::parse(clean.as_str()));
    UploadStep::Run(FsOp::CreateDirAll(photo_dir), UploadDirMade { photo_path })
}

/// Answers a photo upload: the photo goes into the photo directory under
/// its cleaned name.
pub fn upload_photo(serve: &Option<FsPath>, form: &FileUploadForm) -> (r: UploadStep)
    ensures
        match opt_path(*serve) {
            None => r matches UploadStep::Done(Err(x)) && x == ApiStatus::InternalServerError,
            Some(rt) => r matches UploadStep::Run(FsOp::CreateDirAll(d), k) && d@ == below(rt, PHOTO_DIR@)
                && k.photo_path@ == photo_path_spec(rt, PHOTO_DIR@, form.filename@),
        },
{
    upload_into(serve, PHOTO_DIR, form.filename.as_str())
}

impl UploadDirMade {
    /// A directory that cannot be made is a server error.
    pub fn resume(self, res: Result<(), FsErrorKind>) -> (r: UploadStep)
        ensures
            res is Err ==> (r matches UploadStep::Done(Err(x)) && x == ApiStatus::InternalServerError),
            res is Ok ==> (r matches UploadStep::CheckTaken(p, k) && p@ == self.photo_path@ && k.photo_path@
                == self.photo_path@),
    {
        match res {
            Ok(()) => {
                let p = self.photo_path.copy();
                UploadStep::CheckTaken(p, UploadChecked { photo_path: self.photo_path })
            },
            Err(_) => UploadStep::Done(Err(ApiStatus::InternalServerError)),
        }
    }
}

impl UploadChecked {
    /// A photo that exists already is a conflict; otherwise the upload is
    /// moved into place.
    pub fn resume(self, taken: bool) -> (r: UploadStep)
        ensures
            taken ==> (r matches UploadStep::Done(Err(x)) && x == ApiStatus::Conflict),
            !taken ==> (r matches UploadStep::MoveUpload(p, _) && p@ == self.photo_path@),
    {
        if taken {
            UploadStep::Done(Err(ApiStatus::Conflict))
        } else {
            UploadStep::MoveUpload(self.photo_path, UploadMoved)
        }
    }
}

impl UploadMoved {
    /// A stored photo answers `200 OK`; a failed move is a server error.
    pub fn resume(self, moved: bool) -> (r: UploadStep)
        ensures
            moved ==> (r matches UploadStep::Done(Ok(x)) && x == ApiStatus::Success),
            !moved ==> (r matches UploadStep::Done(Err(x)) && x == ApiStatus::InternalServerError),
    {
        if moved {
            UploadStep::Done(Ok(ApiStatus::Success))
        } else {
            UploadStep::Done(Err(ApiStatus::InternalServerError))
        }
    }
}

/// A step of a photo deletion.
pub enum DeleteStep {
    Done(Result<ApiStatus, ApiStatus>),
    /// Answer whether something exists at the photo's path.
    CheckExists(FsPath, DeleteChecked),
    /// Run the operation (removing the file) and answer its outcome.
    Run(FsOp, DeleteRemoved),
}

/// Waits to learn whether the photo exists.
pub struct DeleteChecked {
    pub photo_path: FsPath,
}

/// Waits for the file to be removed.
pub struct DeleteRemoved;

/// Answers a deletion from `dir` below `root`: the photo's cleaned path is
/// checked first.
pub fn delete_from(root: &Option<FsPath>, dir: &str, filename: &str) -> (r: DeleteStep)
    ensures
        match opt_path(*root) {
            None => r matches DeleteStep::Done(Err(x)) && x == ApiStatus::InternalServerError,
            Some(rt) => r matches DeleteStep::CheckExists(p, k) && p@ == photo_path_spec(rt, dir@, filename@)
                && k.photo_path@ == p@,
        },
{
    let clean = sanitize_name(filename);
    let rt = match root {
        Some(rt) => rt,
        None => return DeleteStep::Done(Err(ApiStatus::InternalServerError)),
    };
    let photo_path = dir_below(rt, dir).join(&FsPath::parse(clean.as_str()));
    let p = photo_path.copy();
    DeleteStep::CheckExists(p, DeleteChecked { photo_path })
}

/// Answers a photo deletion from the photo directory.
pub fn delete_photo(serve: &Option<FsPath>, form: &FileDeleteForm) -> (r: DeleteStep)
    ensures
        match opt_path(*serve) {
            None => r matches DeleteStep::Done(Err(x)) && x == ApiStatus::InternalServerError,
            Some(rt) => r matches DeleteStep::CheckExists(p, k) && p@ == photo_path_spec(rt, PHOTO_DIR@, form.filename@)
                && k.photo_path@ == p@,
        },
{
    delete_from(serve, PHOTO_DIR, form.filename.as_str())
}

impl DeleteChecked {
    /// A missing photo is not found; otherwise the file is removed.
    pub fn resume(self, exists: bool) -> (r: DeleteStep)
        ensures
            !exists ==> (r matches DeleteStep::Done(Err(x)) && x == ApiStatus::NotFound),
            exists ==> (r matches DeleteStep::Run(FsOp::RemoveFile(p), _) && p@ == self.photo_path@),
    {
        if !exists {
            DeleteStep::Done(Err(ApiStatus::NotFound))
        } else {
            DeleteStep::Run(FsOp::RemoveFile(self.photo_path), DeleteRemoved)
        }
    }
}

impl DeleteRemoved {
    /// A removed photo answers `204 No Content`; any failure is a server
    /// error.
    pub fn resume(self, res: Result<(), FsErrorKind>) -> (r: DeleteStep)
        ensures
            res is Ok ==> (r matches DeleteStep::Done(Ok(x)) && x == ApiStatus::NoContent),
            res is Err ==> (r matches DeleteStep::Done(Err(x)) && x == ApiStatus::InternalServerError),
    {
        match res {
            Ok(()) => DeleteStep::Done(Ok(ApiStatus::NoContent)),
            Err(_) => DeleteStep::Done(Err(ApiStatus::InternalServerError)),
        }
    }
}

} // verus!
