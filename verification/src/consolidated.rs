//! The consolidated API variant: it serves below the archive root with a
//! lexical prefix check instead of rejecting `..`, lists directories with
//! the request path, and streams media files by path.
use vstd::prelude::*;
use crate::effects::{create_tree_error, create_tree_error_spec, FsErrorKind};
use crate::fspath::{components_of, extension_spec, join_spec, parent_spec, starts_with_spec, FsPath, PartView};
use crate::listing::{entries_view, entry_le, sort_entries};
pub use crate::listing::DirectoryEntry;
use crate::photoset::{is_media_ext, is_media_extension, opt_path, FsOp};
use crate::status::ApiStatus;
use vstd::relations::sorted_by;

verus! {

/// A byte range with a required start.
#[derive(Debug, Clone, Copy)]
pub struct RangeHeader {
    pub start: u64,
    pub end: Option<u64>,
}

/// A media file served by streaming, by its path.
#[derive(Debug)]
pub struct StreamedFile {
    pub file: FsPath,
}

/// A directory listing together with the request path it answers.
#[derive(Debug)]
pub struct DirectoryListing {
    pub path: String,
    pub entries: Vec<DirectoryEntry>,
}

/// The answer to a listing request.
#[derive(Debug)]
pub enum FileServerResponse {
    /// The whole file, as opened by the server.
    FullContent,
    /// A media file, streamed.
    RangedContent(StreamedFile),
    /// A directory listing.
    DirectoryListing(DirectoryListing),
}

/// Where a request path leads: the root joined with it, unless the root is
/// not configured (a server error) or the result does not start with the
/// root (forbidden). The check is lexical: `..` components pass it.
pub open spec fn consolidated_path_spec(root: Option<Seq<PartView>>, short: Seq<PartView>) -> Result<
    Seq<PartView>,
    ApiStatus,
> {
    match root {
        None => Err(ApiStatus::InternalServerError),
        Some(rt) => if starts_with_spec(join_spec(rt, short), rt) {
            Ok(join_spec(rt, short))
        } else {
            Err(ApiStatus::Forbidden)
        },
    }
}

/// Resolves a request path below the archive root.
pub fn resolve_photoset_path(root: &Option<FsPath>, short_path: &FsPath) -> (r: Result<FsPath, ApiStatus>)
    ensures
        match consolidated_path_spec(opt_path(*root), short_path@) {
            Ok(p) => r matches Ok(q) && q@ == p,
            Err(e) => r matches Err(x) && x == e,
        },
{
    let rt = match root {
        Some(rt) => rt,
        None => return Err(ApiStatus::InternalServerError),
    };
    let photoset_path = rt.join(short_path);
    if !photoset_path.starts_with(rt) {
        return Err(ApiStatus::Forbidden);
    }
    Ok(photoset_path)
}

/// A step of a listing request.
pub enum ListStep {
    Done(Result<FileServerResponse, ApiStatus>),
    /// Canonicalize the path; answer `None` on failure.
    Canonicalize(FsPath, ListCanonical),
    /// Say whether the path is a directory and whether it is a file.
    Inspect(FsPath, ListInspect),
    /// Read the entries; answer `None` when the directory, an entry or its
    /// metadata cannot be read.
    ReadDir(FsPath, ListDirectory),
    /// Open the file to send it whole; answer whether it opened.
    OpenFile(FsPath, ListFile),
}

/// Waits for the canonical path.
pub struct ListCanonical {
    pub request_path: String,
}

/// Waits for the kind of the canonical path.
pub struct ListInspect {
    pub path: FsPath,
    pub request_path: String,
}

/// Waits for the entries of the directory.
pub struct ListDirectory {
    pub request_path: String,
}

/// Waits for the file to be opened.
pub struct ListFile;

/// Answers a listing request for `path` (whose text is `request_path`).
pub fn list_photoset(root: &Option<FsPath>, path: &FsPath, request_path: String) -> (r: ListStep)
    ensures
        match consolidated_path_spec(opt_path(*root), path@) {
            Ok(p) => r matches ListStep::Canonicalize(q, k) && q@ == p && k.request_path == request_path,
            Err(e) => r matches ListStep::Done(Err(x)) && x == e,
        },
{
    match resolve_photoset_path(root, path) {
        Ok(p) => ListStep::Canonicalize(p, ListCanonical { request_path }),
        Err(e) => ListStep::Done(Err(e)),
    }
}

impl ListCanonical {
    /// A path that cannot be canonicalized is not found.
    pub fn resume(self, canonical: Option<FsPath>) -> (r: ListStep)
        ensures
            canonical is None ==> (r matches ListStep::Done(Err(x)) && x == ApiStatus::NotFound),
            canonical matches Some(c) ==> (r matches ListStep::Inspect(q, k) && q@ == c@ && k.path@ == c@
                && k.request_path == self.request_path),
    {
        match canonical {
            Some(c) => {
                let q = c.copy();
                ListStep::Inspect(q, ListInspect { path: c, request_path: self.request_path })
            },
            None => ListStep::Done(Err(ApiStatus::NotFound)),
        }
    }
}

/// How a file is served: media files by streaming, others whole.
pub open spec fn file_step_spec(r: ListStep, p: Seq<PartView>) -> bool {
    if extension_spec(p) matches Some(e) && is_media_ext(e) {
        r matches ListStep::Done(Ok(FileServerResponse::RangedContent(sf))) && sf.file@ == p
    } else {
        r matches ListStep::OpenFile(q, _) && q@ == p
    }
}

impl ListInspect {
    /// Directories are listed, files served; anything else is not found.
    pub fn resume(self, is_dir: bool, is_file: bool) -> (r: ListStep)
        ensures
            is_dir ==> (r matches ListStep::ReadDir(q, k) && q@ == self.path@ && k.request_path == self.request_path),
            !is_dir && is_file ==> file_step_spec(r, self.path@),
            !is_dir && !is_file ==> (r matches ListStep::Done(Err(x)) && x == ApiStatus::NotFound),
    {
        if is_dir {
            return ListStep::ReadDir(self.path, ListDirectory { request_path: self.request_path });
        }
        if is_file {
            return parse_file(self.path);
        }
        ListStep::Done(Err(ApiStatus::NotFound))
    }
}

/// Serves a file: a media file is streamed by path, any other is opened to
/// be sent whole.
pub fn parse_file(full_path: FsPath) -> (r: ListStep)
    ensures
        file_step_spec(r, full_path@),
{
    let is_media = match full_path.extension() {
        Some(ext) => is_media_extension(ext.as_str()),
        None => false,
    };
    if is_media {
        ListStep::Done(Ok(FileServerResponse::RangedContent(StreamedFile { file: full_path })))
    } else {
        ListStep::OpenFile(full_path, ListFile)
    }
}

/// A directory listing for `request_path` from the entries read, or a
/// server error when they could not be read.
pub fn parse_directory(entries: Option<Vec<DirectoryEntry>>, request_path: String) -> (r: Result<
    FileServerResponse,
    ApiStatus,
>)
    ensures
        entries is None ==> (r matches Err(x) && x == ApiStatus::InternalServerError),
        entries matches Some(v) ==> (r matches Ok(FileServerResponse::DirectoryListing(l)) && l.path
            == request_path && sorted_by(entries_view(l.entries@), |x: (Seq<char>, bool), y: (Seq<char>, bool)| entry_le(x, y))
            && entries_view(l.entries@).to_multiset() == entries_view(v@).to_multiset()),
{
    match entries {
        Some(v) => {
            let sorted = sort_entries(&v);
            Ok(FileServerResponse::DirectoryListing(DirectoryListing { path: request_path, entries: sorted }))
        },
        None => Err(ApiStatus::InternalServerError),
    }
}

impl ListDirectory {
    /// Answers with the listing (see `parse_directory`).
    pub fn resume(self, entries: Option<Vec<DirectoryEntry>>) -> (r: ListStep)
        ensures
            r matches ListStep::Done(res) && (entries is None ==> (res matches Err(x) && x == ApiStatus::InternalServerError))
                && (entries matches Some(v) ==> (res matches Ok(FileServerResponse::DirectoryListing(l)) && l.path
                == self.request_path && sorted_by(entries_view(l.entries@), |x: (Seq<char>, bool), y: (Seq<char>, bool)| entry_le(x, y))
                && entries_view(l.entries@).to_multiset() == entries_view(v@).to_multiset())),
    {
        ListStep::Done(parse_directory(entries, self.request_path))
    }
}

impl ListFile {
    /// Answers with the whole file, or not found.
    pub fn resume(self, opened: bool) -> (r: ListStep)
        ensures
            opened ==> r matches ListStep::Done(Ok(FileServerResponse::FullContent)),
            !opened ==> (r matches ListStep::Done(Err(x)) && x == ApiStatus::NotFound),
    {
        if opened {
            ListStep::Done(Ok(FileServerResponse::FullContent))
        } else {
            ListStep::Done(Err(ApiStatus::NotFound))
        }
    }
}

/// A step of a creation request.
pub enum CreateStep {
    Done(Result<ApiStatus, ApiStatus>),
    /// Run the operation (creating the tree) and answer its outcome.
    Run(FsOp, CreateMade),
}

/// Waits for the tree to be created.
pub struct CreateMade;

/// The outcome of creating a photoset tree: a denied permission is
/// forbidden, other failures are server errors.
pub fn create_dir(res: Result<(), FsErrorKind>) -> (r: Result<(), ApiStatus>)
    ensures
        res is Ok ==> r is Ok,
        res matches Err(k) ==> r == Err::<(), ApiStatus>(create_tree_error_spec(k)),
{
    match res {
        Ok(()) => Ok(()),
        Err(k) => Err(create_tree_error(k)),
    }
}

/// Answers a creation request.
pub fn create_photoset(root: &Option<FsPath>, path: &FsPath) -> (r: CreateStep)
    ensures
        match consolidated_path_spec(opt_path(*root), path@) {
            Ok(p) => r matches CreateStep::Run(FsOp::CreateDirAll(q), _) && q@ == p,
            Err(e) => r matches CreateStep::Done(Err(x)) && x == e,
        },
{
    match resolve_photoset_path(root, path) {
        Ok(p) => CreateStep::Run(FsOp::CreateDirAll(p), CreateMade),
        Err(e) => CreateStep::Done(Err(e)),
    }
}

impl CreateMade {
    /// A created tree answers `201 Created`.
    pub fn resume(self, res: Result<(), FsErrorKind>) -> (r: CreateStep)
        ensures
            res is Ok ==> (r matches CreateStep::Done(Ok(x)) && x == ApiStatus::Created),
            res matches Err(k) ==> (r matches CreateStep::Done(Err(x)) && x == create_tree_error_spec(k)),
    {
        match create_dir(res) {
            Ok(()) => CreateStep::Done(Ok(ApiStatus::Created)),
            Err(e) => CreateStep::Done(Err(e)),
        }
    }
}

/// A step of a rename request.
pub enum UpdateStep {
    Done(Result<ApiStatus, ApiStatus>),
    /// Canonicalize the photoset's path; answer `None` on failure.
    Canonicalize(FsPath, UpdateTarget),
    /// Move the first path to the second (see `rename_entry`).
    Rename(FsPath, FsPath, UpdateRenamed),
}

/// Waits for the canonical photoset path.
pub struct UpdateTarget {
    pub new_name: String,
}

/// Waits for the rename.
pub struct UpdateRenamed;

/// Answers a rename request.
pub fn update_photoset(root: &Option<FsPath>, path: &FsPath, new_name: String) -> (r: UpdateStep)
    ensures
        match consolidated_path_spec(opt_path(*root), path@) {
            Ok(p) => r matches UpdateStep::Canonicalize(q, k) && q@ == p && k.new_name == new_name,
            Err(e) => r matches UpdateStep::Done(Err(x)) && x == e,
        },
{
    match resolve_photoset_path(root, path) {
        Ok(p) => UpdateStep::Canonicalize(p, UpdateTarget { new_name }),
        Err(e) => UpdateStep::Done(Err(e)),
    }
}

impl UpdateTarget {
    /// The photoset moves to the new name inside its directory.
    pub fn resume(self, canonical: Option<FsPath>) -> (r: UpdateStep)
        ensures
            canonical is None ==> (r matches UpdateStep::Done(Err(x)) && x == ApiStatus::NotFound),
            canonical matches Some(c) ==> match parent_spec(c@) {
                None => r matches UpdateStep::Done(Err(x)) && x == ApiStatus::InternalServerError,
                Some(dir) => r matches UpdateStep::Rename(a, b, _) && a@ == c@ && b@ == join_spec(
                    dir,
                    components_of(self.new_name@),
                ),
            },
    {
        let c = match canonical {
            Some(c) => c,
            None => return UpdateStep::Done(Err(ApiStatus::NotFound)),
        };
        let dir = match c.parent() {
            Some(d) => d,
            None => return UpdateStep::Done(Err(ApiStatus::InternalServerError)),
        };
        let new_path = dir.join(&FsPath::parse(self.new_name.as_str()));
        UpdateStep::Rename(c, new_path, UpdateRenamed)
    }
}

impl UpdateRenamed {
    /// A finished rename answers `202 Accepted`.
    pub fn resume(self, res: Result<(), ApiStatus>) -> (r: UpdateStep)
        ensures
            res is Ok ==> (r matches UpdateStep::Done(Ok(x)) && x == ApiStatus::Accepted),
            res matches Err(e) ==> (r matches UpdateStep::Done(Err(x)) && x == e),
    {
        match res {
            Ok(()) => UpdateStep::Done(Ok(ApiStatus::Accepted)),
            Err(e) => UpdateStep::Done(Err(e)),
        }
    }
}

/// A step of an upload request.
pub enum PutStep {
    Done(Result<(), ApiStatus>),
    /// Answer whether something exists at the target.
    CheckTaken(FsPath, PutChecked),
    /// Canonicalize the target's directory; answer `None` on failure.
    CanonicalizeParent(FsPath, PutParent),
    /// Save the body at the target (see `save_data`).
    Save(FsPath, PutSaved),
}

/// Waits to learn whether the target exists.
pub struct PutChecked {
    pub target: FsPath,
}

/// Waits for the canonical directory of the target.
pub struct PutParent {
    pub target: FsPath,
}

/// Waits for the upload to be saved.
pub struct PutSaved;

/// Answers an upload request.
pub fn put_photoset(root: &Option<FsPath>, path: &FsPath) -> (r: PutStep)
    ensures
        match consolidated_path_spec(opt_path(*root), path@) {
            Ok(p) => r matches PutStep::CheckTaken(q, k) && q@ == p && k.target@ == p,
            Err(e) => r matches PutStep::Done(Err(x)) && x == e,
        },
{
    match resolve_photoset_path(root, path) {
        Ok(p) => {
            let q = p.copy();
            PutStep::CheckTaken(q, PutChecked { target: p })
        },
        Err(e) => PutStep::Done(Err(e)),
    }
}

impl PutChecked {
    /// An existing target is a conflict; a target without a directory is a
    /// bad request; otherwise the directory is canonicalized.
    pub fn resume(self, taken: bool) -> (r: PutStep)
        ensures
            taken ==> (r matches PutStep::Done(Err(x)) && x == ApiStatus::Conflict),
            !taken ==> match parent_spec(self.target@) {
                None => r matches PutStep::Done(Err(x)) && x == ApiStatus::BadRequest,
                Some(dir) => r matches PutStep::CanonicalizeParent(q, k) && q@ == dir && k.target@ == self.target@,
            },
    {
        if taken {
            return PutStep::Done(Err(ApiStatus::Conflict));
        }
        match self.target.parent() {
            Some(dir) => PutStep::CanonicalizeParent(dir, PutParent { target: self.target }),
            None => PutStep::Done(Err(ApiStatus::BadRequest)),
        }
    }
}

impl PutParent {
    /// A directory that cannot be canonicalized is not found; otherwise the
    /// body is saved.
    pub fn resume(self, canonical: Option<FsPath>) -> (r: PutStep)
        ensures
            canonical is None ==> (r matches PutStep::Done(Err(x)) && x == ApiStatus::NotFound),
            canonical is Some ==> (r matches PutStep::Save(t, _) && t@ == self.target@),
    {
        match canonical {
            Some(_) => PutStep::Save(self.target, PutSaved),
            None => PutStep::Done(Err(ApiStatus::NotFound)),
        }
    }
}

impl PutSaved {
    /// The request finishes with the outcome of the save.
    pub fn resume(self, res: Result<(), ApiStatus>) -> (r: PutStep)
        ensures
            r matches PutStep::Done(x) && x == res,
    {
        PutStep::Done(res)
    }
}

} // verus!
