//! The photoset API that the server mounts under `/api/photoset`: listing,
//! creating, renaming, uploading into and deleting photosets below the
//! archive root.
//!
//! Each handler alternates file-system work with decisions. The decisions
//! stand here; a handler is a chain of steps: every step either finishes
//! the request or names one file-system operation together with the
//! continuation that takes its answer.
use vstd::prelude::*;
use crate::effects::{create_dir_error, create_dir_error_spec, remove_dir_error,
    remove_dir_error_spec, remove_file_error, remove_file_error_spec, FsErrorKind};
use crate::fspath::{
    components_of, escapes_spec, extension_spec, file_name_spec, join_spec, parent_spec,
    starts_with_spec, FsPath, PartView, PathPart,
};
use crate::listing::{entries_view, entry_le, sort_entries};
pub use crate::listing::{DirectoryEntry, DirectoryListing};
use crate::naming::{is_id_char, random_id, staging_file_name, staging_name_spec};
use crate::range::{content_range, content_range_text, resolvable, resolve_spec, RangeHeader, RequestHeaders};
use crate::status::ApiStatus;
use crate::text::{chars_of, string_of, trim, trim_spec};
use vstd::relations::sorted_by;

verus! {

// ---------------------------------------------------------------------------
// Models
// ---------------------------------------------------------------------------

/// How an existing path is served.
#[derive(Debug, Clone, Copy, PartialEq, Eq, Structural)]
pub enum FileType {
    File,
    Media,
    Directory,
}

/// A resolved path inside the archive, how it is served, and the byte range
/// that the request asked for.
#[derive(Debug)]
pub struct FileEntry {
    pub path: FsPath,
    pub kind: FileType,
    pub range: Option<RangeHeader>,
}

/// A media file served in part: its size, the inclusive byte range sent
/// and its content type (the media type text). The open file stays with
/// the server.
#[derive(Debug, PartialEq, Eq)]
pub struct StreamedFile {
    pub size: u64,
    pub range: (u64, u64),
    pub content_type: String,
}

/// The answer to a listing request.
#[derive(Debug)]
pub enum FileServerResponse {
    /// The whole file, as opened by the server.
    FullContent,
    /// Part of a media file.
    RangedContent(StreamedFile),
    /// The entries of a directory, in listing order.
    DirectoryListing(DirectoryListing),
}

/// A single file-system operation whose only answer is success or an error
/// kind.
#[derive(Debug)]
pub enum FsOp {
    CreateDirAll(FsPath),
    Rename(FsPath, FsPath),
    RemoveDir(FsPath),
    RemoveDirAll(FsPath),
    RemoveFile(FsPath),
    Copy(FsPath, FsPath),
}

/// What opening a media file for streaming gave.
#[derive(Debug, Clone, Copy, PartialEq, Eq, Structural)]
pub enum StreamProbe {
    /// The file could not be opened.
    OpenFailed,
    /// It was opened but its size could not be read.
    SizeUnknown,
    /// It was opened and has this many bytes.
    Sized(u64),
}

/// The extensions of the files that are streamed in parts.
pub open spec fn is_media_ext(e: Seq<char>) -> bool {
    ||| e == seq!['m', 'p', '4']
    ||| e == seq!['m', '4', 'v']
    ||| e == seq!['m', 'o', 'v']
    ||| e == seq!['m', 'p', 'e', 'g']
    ||| e == seq!['m', 'p', 'g']
    ||| e == seq!['w', 'e', 'b', 'm']
    ||| e == seq!['a', 'v', 'i']
}

/// How a path is served: a directory is listed, an existing regular file
/// with a media extension is streamed, anything else is sent whole.
pub open spec fn path_type_spec(p: Seq<PartView>, is_dir: bool, is_file: bool) -> FileType {
    if is_dir {
        FileType::Directory
    } else if is_file && (extension_spec(p) matches Some(e) && is_media_ext(e)) {
        FileType::Media
    } else {
        FileType::File
    }
}

fn word_is(v: &Vec<char>, w: &[char]) -> (r: bool)
    ensures
        r == (v@ == w@),
{
    if v.len() != w.len() {
        return false;
    }
    let n = v.len();
    for i in 0..n
        invariant
            n == v@.len() == w@.len(),
            forall|j: int| 0 <= j < i ==> v@[j] == w@[j],
    {
        if v[i] != w[i] {
            return false;
        }
    }
    assert(v@ =~= w@);
    true
}

/// Whether `ext` is one of the media extensions `mp4 m4v mov mpeg mpg webm avi`.
pub fn is_media_extension(ext: &str) -> (r: bool)
    ensures
        r == is_media_ext(ext@),
{
    let v = chars_of(ext);
    let r = word_is(&v, &['m', 'p', '4']) || word_is(&v, &['m', '4', 'v']) || word_is(
        &v,
        &['m', 'o', 'v'],
    ) || word_is(&v, &['m', 'p', 'e', 'g']) || word_is(&v, &['m', 'p', 'g']) || word_is(
        &v,
        &['w', 'e', 'b', 'm'],
    ) || word_is(&v, &['a', 'v', 'i']);
    assert(seq!['m', 'p', '4'] =~= ['m', 'p', '4']@);
    assert(seq!['m', '4', 'v'] =~= ['m', '4', 'v']@);
    assert(seq!['m', 'o', 'v'] =~= ['m', 'o', 'v']@);
    assert(seq!['m', 'p', 'e', 'g'] =~= ['m', 'p', 'e', 'g']@);
    assert(seq!['m', 'p', 'g'] =~= ['m', 'p', 'g']@);
    assert(seq!['w', 'e', 'b', 'm'] =~= ['w', 'e', 'b', 'm']@);
    assert(seq!['a', 'v', 'i'] =~= ['a', 'v', 'i']@);
    r
}

/// The view of an optional path.
pub open spec fn opt_path(p: Option<FsPath>) -> Option<Seq<PartView>> {
    match p {
        Some(q) => Some(q@),
        None => None,
    }
}

// ---------------------------------------------------------------------------
// Entries and responses
// ---------------------------------------------------------------------------

impl FileEntry {
    /// Decides how `path` is served from what the file system says of it
    /// (`is_dir`, `is_file`) and its extension.
    pub fn resolve_path_type(path: FsPath, is_dir: bool, is_file: bool) -> (e: FileEntry)
        ensures
            e.path@ == path@,
            e.kind == path_type_spec(path@, is_dir, is_file),
            e.range is None,
    {
        let is_media = match path.extension() {
            Some(ext) => is_media_extension(ext.as_str()),
            None => false,
        };
        let kind = if is_dir {
            FileType::Directory
        } else if is_file && is_media {
            FileType::Media
        } else {
            FileType::File
        };
        FileEntry { path, kind, range: None }
    }

    /// The step that serves the entry: list a directory, stream a media
    /// file, or send any other file whole.
    pub fn parse_entry(self) -> (r: ListStep)
        ensures
            self.kind == FileType::Directory ==> (r matches ListStep::ReadDir(p, _) && p@ == self.path@),
            self.kind == FileType::Media ==> (r matches ListStep::OpenStream(p, k) && p@ == self.path@
                && k.range == self.range && k.ext@ == extension_text(self.path@)),
            self.kind == FileType::File ==> (r matches ListStep::OpenFile(p, _) && p@ == self.path@),
    {
        match self.kind {
            FileType::Directory => ListStep::ReadDir(self.path, ListDirectory),
            FileType::Media => {
                let ext = match self.path.extension() {
                    Some(e) => e,
                    None => String::new(),
                };
                ListStep::OpenStream(self.path, ListStream { range: self.range, ext })
            },
            FileType::File => ListStep::OpenFile(self.path, ListFile),
        }
    }
}

impl StreamedFile {
    /// The `Content-Range` header sent with the partial content.
    pub fn content_range_header(&self) -> (s: String)
        ensures
            s@ == content_range_text(self.range.0, self.range.1, self.size),
    {
        content_range(self.range.0, self.range.1, self.size)
    }
}

/// A directory listing from the entries read, or a server error when the
/// directory (or the metadata of an entry) could not be read.
pub fn parse_directory(entries: Option<Vec<DirectoryEntry>>) -> (r: Result<
    FileServerResponse,
    ApiStatus,
>)
    ensures
        entries is None ==> r == Err::<FileServerResponse, ApiStatus>(ApiStatus::InternalServerError),
        entries matches Some(v) ==> (r matches Ok(FileServerResponse::DirectoryListing(l))
            && sorted_by(entries_view(l.entries@), |x: (Seq<char>, bool), y: (Seq<char>, bool)| entry_le(x, y))
            && entries_view(l.entries@).to_multiset() == entries_view(v@).to_multiset()),
{
    match entries {
        Some(v) => {
            let sorted = sort_entries(&v);
            Ok(FileServerResponse::DirectoryListing(DirectoryListing { entries: sorted }))
        },
        None => Err(ApiStatus::InternalServerError),
    }
}

/// A media file and its size can be served for the requested range without
/// running below zero: without a range the file must not be empty.
pub open spec fn stream_request_ok(probe: StreamProbe, range: Option<RangeHeader>) -> bool {
    match probe {
        StreamProbe::Sized(n) => match range {
            Some(h) => resolvable(h, n),
            None => n > 0,
        },
        _ => true,
    }
}

/// The extension of a path as text, empty when it has none
/// (`extension().unwrap_or_default()`).
pub open spec fn extension_text(p: Seq<PartView>) -> Seq<char> {
    match extension_spec(p) {
        Some(e) => e,
        None => Seq::<char>::empty(),
    }
}

/// What rocket's `ContentType::parse_flexible` makes of `name` (one of its
/// shorthands such as `json` or `pdf`, or a media type such as `video/mp4`),
/// written as an HTTP `Content-Type` value; `None` when it recognises
/// nothing.
pub uninterp spec fn flexible_media_type(name: Seq<char>) -> Option<Seq<char>>;

/// The media type of an MPEG-4 video, `video/mp4`.
pub open spec fn mp4_media_type() -> Seq<char> {
    seq!['v', 'i', 'd', 'e', 'o', '/', 'm', 'p', '4']
}

/// The content type of a streamed file: the one recognised, or
/// `video/mp4` when none is.
pub open spec fn media_type_or_mp4(parsed: Option<Seq<char>>) -> Seq<char> {
    match parsed {
        Some(t) => t,
        None => mp4_media_type(),
    }
}

/// Rocket's `ContentType::parse_flexible`: the content type named by one of
/// rocket's shorthands (compared without regard to case) or by a media type
/// text, as its `Content-Type` value. The contract ties the result to the
/// argument through `flexible_media_type` and claims nothing more of which
/// names rocket knows.
#[verifier::external_body]
fn parse_flexible_content_type(name: &str) -> (r: Option<String>)
    ensures
        match r {
            Some(t) => flexible_media_type(name@) == Some(t@),
            None => flexible_media_type(name@) is None,
        },
{
    match rocket::http::ContentType::parse_flexible(name) {
        Some(ct) => Some(ct.to_string()),
        None => None,
    }
}

/// The content type to send for what `parse_flexible` gave: that type, or
/// `video/mp4` when it gave none.
pub fn content_type_or_mp4(parsed: Option<String>) -> (t: String)
    ensures
        t@ == media_type_or_mp4(match parsed {
            Some(p) => Some(p@),
            None => None,
        }),
{
    match parsed {
        Some(p) => p,
        None => {
            proof {
                reveal_strlit("video/mp4");
            }
            string_of("video/mp4")
        },
    }
}

/// The content type of a streamed file with extension `ext`.
pub fn content_type_for(ext: &str) -> (t: String)
    ensures
        t@ == media_type_or_mp4(flexible_media_type(ext@)),
{
    content_type_or_mp4(parse_flexible_content_type(ext))
}

/// The size and part of a media file to send: the requested range worked
/// out against the file's size, or the whole file when no range was asked
/// for.
pub open spec fn streamed_part(probe: StreamProbe, range: Option<RangeHeader>) -> Result<(u64, (u64, u64)), ApiStatus> {
    match probe {
        StreamProbe::OpenFailed => Err(ApiStatus::NotFound),
        StreamProbe::SizeUnknown => Err(ApiStatus::InternalServerError),
        StreamProbe::Sized(n) => match range {
            Some(h) => match resolve_spec(h, n) {
                Some(r) => Ok((n, r)),
                None => Err(ApiStatus::RangeNotSatisfiable),
            },
            None => Ok((n, (0, (n - 1) as u64))),
        },
    }
}

/// The answer for a streamed media file with extension `ext`.
pub open spec fn streamed_answer(r: Result<FileServerResponse, ApiStatus>, probe: StreamProbe, range: Option<RangeHeader>, ext: Seq<char>) -> bool {
    match streamed_part(probe, range) {
        Ok((n, part)) => r matches Ok(FileServerResponse::RangedContent(x)) && x.size == n && x.range
            == part && x.content_type@ == media_type_or_mp4(flexible_media_type(ext)),
        Err(s) => r matches Err(x) && x == s,
    }
}

/// Serves a media file with extension `ext` in part.
pub fn parse_streamed_file(probe: StreamProbe, range: Option<RangeHeader>, ext: &str) -> (r: Result<
    FileServerResponse,
    ApiStatus,
>)
    requires
        stream_request_ok(probe, range),
    ensures
        streamed_answer(r, probe, range, ext@),
{
    match probe {
        StreamProbe::OpenFailed => Err(ApiStatus::NotFound),
        StreamProbe::SizeUnknown => Err(ApiStatus::InternalServerError),
        StreamProbe::Sized(size) => {
            let content_type = content_type_for(ext);
            let (start, end) = match range {
                Some(h) => match h.resolve(size) {
                    Some(resolved) => resolved,
                    None => return Err(ApiStatus::RangeNotSatisfiable),
                },
                None => (0, size - 1),
            };
            Ok(FileServerResponse::RangedContent(StreamedFile { size, range: (start, end), content_type }))
        },
    }
}

/// Serves a file whole, if it could be opened.
pub fn parse_file(opened: bool) -> (r: Result<FileServerResponse, ApiStatus>)
    ensures
        opened ==> r matches Ok(FileServerResponse::FullContent),
        !opened ==> r == Err::<FileServerResponse, ApiStatus>(ApiStatus::NotFound),
{
    if opened {
        Ok(FileServerResponse::FullContent)
    } else {
        Err(ApiStatus::NotFound)
    }
}

// ---------------------------------------------------------------------------
// Path resolution
// ---------------------------------------------------------------------------

/// Where a request path leads below the archive root: nowhere when the
/// root is not configured (a server error) or when the path could climb out
/// of it through `..` or a root (forbidden); otherwise the root joined with
/// the path.
pub open spec fn photoset_path_spec(root: Option<Seq<PartView>>, short: Seq<PartView>) -> Result<
    Seq<PartView>,
    ApiStatus,
> {
    match root {
        None => Err(ApiStatus::InternalServerError),
        Some(rt) => if escapes_spec(short) {
            Err(ApiStatus::Forbidden)
        } else {
            Ok(join_spec(rt, short))
        },
    }
}

/// The matching result for a computed path.
pub open spec fn path_result_matches(r: Result<FsPath, ApiStatus>, s: Result<Seq<PartView>, ApiStatus>) -> bool {
    match s {
        Ok(p) => r matches Ok(q) && q@ == p,
        Err(e) => r matches Err(x) && x == e,
    }
}

/// Resolves a request path below the archive root.
pub fn resolve_photoset_path(root: &Option<FsPath>, short_path: &FsPath) -> (r: Result<FsPath, ApiStatus>)
    ensures
        path_result_matches(r, photoset_path_spec(opt_path(*root), short_path@)),
{
    let root = match root {
        Some(rt) => rt,
        None => return Err(ApiStatus::InternalServerError),
    };
    if short_path.is_absolute() {
        assert(short_path@[0] is Root);
        return Err(ApiStatus::Forbidden);
    }
    if short_path.escapes() {
        return Err(ApiStatus::Forbidden);
    }
    Ok(root.join(short_path))
}

/// A path resolved below the root never leaves it: it starts with the
/// root's components and has no `..` beyond them.
pub proof fn lemma_resolved_path_stays_below_root(root: Seq<PartView>, short: Seq<PartView>)
    requires
        photoset_path_spec(Some(root), short) is Ok,
        !escapes_spec(root),
    ensures
        starts_with_spec(photoset_path_spec(Some(root), short)->Ok_0, root),
        !escapes_spec(photoset_path_spec(Some(root), short)->Ok_0),
{
    let p = photoset_path_spec(Some(root), short)->Ok_0;
    assert(!escapes_spec(short));
    if short.len() > 0 {
        assert(!(short[0] is Root));
    }
    if root.len() == 0 {
        assert(p == short);
        assert(p.take(0) =~= root);
    } else if short.len() > 0 && short[0] is Current {
        assert(p =~= root + short.drop_first());
        assert(p.take(root.len() as int) =~= root);
        assert forall|i: int| 0 <= i < p.len() implies !(p[i] is Parent || p[i] is Root) by {
            if i < root.len() {
                assert(p[i] == root[i]);
            } else {
                assert(p[i] == short[i - root.len() + 1]);
            }
        }
    } else {
        assert(p =~= root + short);
        assert(p.take(root.len() as int) =~= root);
        assert forall|i: int| 0 <= i < p.len() implies !(p[i] is Parent || p[i] is Root) by {
            if i < root.len() {
                assert(p[i] == root[i]);
            } else {
                assert(p[i] == short[i - root.len()]);
            }
        }
    }
}

// ---------------------------------------------------------------------------
// GET: listing a photoset or serving one of its files
// ---------------------------------------------------------------------------

/// A step of a listing request.
pub enum ListStep {
    /// The request is answered.
    Done(Result<FileServerResponse, ApiStatus>),
    /// Canonicalize the path (following links); answer `None` on failure.
    Canonicalize(FsPath, ListCanonical),
    /// Say whether the path is a directory and whether it is a file.
    Inspect(FsPath, ListInspect),
    /// Read the directory's entries (with whether each is a directory);
    /// answer `None` when the directory or an entry's metadata cannot be read.
    ReadDir(FsPath, ListDirectory),
    /// Open the file to send it whole; answer whether it opened.
    OpenFile(FsPath, ListFile),
    /// Open the file for streaming and read its size.
    OpenStream(FsPath, ListStream),
}

/// Waits for the canonical request path.
pub struct ListCanonical {
    pub range: Option<RangeHeader>,
}

/// Waits for what kind of thing the canonical path is.
pub struct ListInspect {
    pub path: FsPath,
    pub range: Option<RangeHeader>,
}

/// Waits for the entries of a directory.
pub struct ListDirectory;

/// Waits for a file to be opened.
pub struct ListFile;

/// Waits for a media file to be opened and measured; `ext` is the file's
/// extension (empty when it has none).
pub struct ListStream {
    pub range: Option<RangeHeader>,
    pub ext: String,
}

/// Answers a listing request for `path` below the archive root: resolves
/// the path, then asks for its canonical form.
pub fn list_photoset(root: &Option<FsPath>, path: &FsPath, headers: &RequestHeaders) -> (r: ListStep)
    ensures
        match photoset_path_spec(opt_path(*root), path@) {
            Ok(p) => r matches ListStep::Canonicalize(q, k) && q@ == p && k.range == (match headers.range_value() {
                Some(v) => crate::range::range_request(v),
                None => None,
            }),
            Err(e) => r matches ListStep::Done(Err(x)) && x == e,
        },
{
    match resolve_photoset_path(root, path) {
        Ok(p) => ListStep::Canonicalize(p, ListCanonical { range: headers.extract_range_header() }),
        Err(e) => ListStep::Done(Err(e)),
    }
}

impl ListCanonical {
    /// A path that cannot be canonicalized is not found; otherwise ask what
    /// it is.
    pub fn resume(self, canonical: Option<FsPath>) -> (r: ListStep)
        ensures
            canonical is None ==> (r matches ListStep::Done(Err(x)) && x == ApiStatus::NotFound),
            canonical matches Some(c) ==> (r matches ListStep::Inspect(q, k) && q@ == c@ && k.path@ == c@
                && k.range == self.range),
    {
        match canonical {
            Some(c) => {
                let q = c.copy();
                ListStep::Inspect(q, ListInspect { path: c, range: self.range })
            },
            None => ListStep::Done(Err(ApiStatus::NotFound)),
        }
    }
}

impl ListInspect {
    /// Serves the path according to its type (see `FileEntry::parse_entry`).
    pub fn resume(self, is_dir: bool, is_file: bool) -> (r: ListStep)
        ensures
            ({
                let kind = path_type_spec(self.path@, is_dir, is_file);
                &&& kind == FileType::Directory ==> (r matches ListStep::ReadDir(p, _) && p@ == self.path@)
                &&& kind == FileType::Media ==> (r matches ListStep::OpenStream(p, k) && p@ == self.path@
                    && k.range == self.range && k.ext@ == extension_text(self.path@))
                &&& kind == FileType::File ==> (r matches ListStep::OpenFile(p, _) && p@ == self.path@)
            }),
    {
        let mut entry = FileEntry::resolve_path_type(self.path, is_dir, is_file);
        entry.range = self.range;
        entry.parse_entry()
    }
}

impl ListDirectory {
    /// Answers with the listing (see `parse_directory`).
    pub fn resume(self, entries: Option<Vec<DirectoryEntry>>) -> (r: ListStep)
        ensures
            r matches ListStep::Done(res) && (entries is None ==> res == Err::<FileServerResponse, ApiStatus>(ApiStatus::InternalServerError))
                && (entries matches Some(v) ==> (res matches Ok(FileServerResponse::DirectoryListing(l))
                && sorted_by(entries_view(l.entries@), |x: (Seq<char>, bool), y: (Seq<char>, bool)| entry_le(x, y))
                && entries_view(l.entries@).to_multiset() == entries_view(v@).to_multiset())),
    {
        ListStep::Done(parse_directory(entries))
    }
}

impl ListFile {
    /// Answers with the whole file, or not found.
    pub fn resume(self, opened: bool) -> (r: ListStep)
        ensures
            opened ==> r matches ListStep::Done(Ok(FileServerResponse::FullContent)),
            !opened ==> (r matches ListStep::Done(Err(x)) && x == ApiStatus::NotFound),
    {
        ListStep::Done(parse_file(opened))
    }
}

impl ListStream {
    /// Answers with the requested part of the media file (see
    /// `parse_streamed_file`).
    pub fn resume(self, probe: StreamProbe) -> (r: ListStep)
        requires
            stream_request_ok(probe, self.range),
        ensures
            r matches ListStep::Done(res) && streamed_answer(res, probe, self.range, self.ext@),
    {
        ListStep::Done(parse_streamed_file(probe, self.range, self.ext.as_str()))
    }
}

// ---------------------------------------------------------------------------
// POST: creating a photoset
// ---------------------------------------------------------------------------

/// A step of a creation request.
pub enum CreateStep {
    Done(Result<ApiStatus, ApiStatus>),
    /// Run the operation (creating the directory tree) and answer its outcome.
    Run(FsOp, CreateMade),
}

/// Waits for the directory tree to be created.
pub struct CreateMade;

/// The outcome of creating a photoset tree: a denied permission is
/// forbidden, a path through a file is a bad request, other failures are
/// server errors.
pub fn create_dir(res: Result<(), FsErrorKind>) -> (r: Result<(), ApiStatus>)
    ensures
        res is Ok ==> r is Ok,
        res matches Err(k) ==> r == Err::<(), ApiStatus>(create_dir_error_spec(k)),
{
    match res {
        Ok(()) => Ok(()),
        Err(k) => Err(create_dir_error(k)),
    }
}

/// Answers a creation request: resolves the path below the root, then
/// creates the directory tree there.
pub fn create_photoset(root: &Option<FsPath>, path: &FsPath) -> (r: CreateStep)
    ensures
        match photoset_path_spec(opt_path(*root), path@) {
            Ok(p) => r matches CreateStep::Run(FsOp::CreateDirAll(q), _) && q@ == p,
            Err(e) => r matches CreateStep::Done(Err(x)) && x == e,
        },
{
    match resolve_photoset_path(root, path) {
        Ok(p) => CreateStep::Run(FsOp::CreateDirAll(p), CreateMade),
        Err(e) => CreateStep::Done(Err(e)),
    }
}

impl CreateMade {
    /// A created tree answers `201 Created`.
    pub fn resume(self, res: Result<(), FsErrorKind>) -> (r: CreateStep)
        ensures
            res is Ok ==> (r matches CreateStep::Done(Ok(x)) && x == ApiStatus::Created),
            res matches Err(k) ==> (r matches CreateStep::Done(Err(x)) && x == create_dir_error_spec(k)),
    {
        match create_dir(res) {
            Ok(()) => CreateStep::Done(Ok(ApiStatus::Created)),
            Err(e) => CreateStep::Done(Err(e)),
        }
    }
}

// ---------------------------------------------------------------------------
// Renaming an entry
// ---------------------------------------------------------------------------

/// A step of moving an entry to a new path that must not be taken.
pub enum RenameStep {
    Done(Result<(), ApiStatus>),
    /// Answer whether something already exists at the path.
    CheckTaken(FsPath, RenameChecked),
    /// Run the operation (the rename) and answer its outcome.
    Run(FsOp, RenameRan),
}

/// Waits to learn whether the new path is taken.
pub struct RenameChecked {
    pub old_path: FsPath,
    pub new_path: FsPath,
}

/// Waits for the rename.
pub struct RenameRan;

/// Moves `old_path` to `new_path`, unless something is already there.
pub fn rename_entry(old_path: FsPath, new_path: FsPath) -> (r: RenameStep)
    ensures
        r matches RenameStep::CheckTaken(p, k) && p@ == new_path@ && k.old_path@ == old_path@
            && k.new_path@ == new_path@,
{
    let probe = new_path.copy();
    RenameStep::CheckTaken(probe, RenameChecked { old_path, new_path })
}

impl RenameChecked {
    /// A taken path is a conflict; otherwise rename.
    pub fn resume(self, taken: bool) -> (r: RenameStep)
        ensures
            taken ==> (r matches RenameStep::Done(Err(x)) && x == ApiStatus::Conflict),
            !taken ==> (r matches RenameStep::Run(FsOp::Rename(a, b), _) && a@ == self.old_path@
                && b@ == self.new_path@),
    {
        if taken {
            RenameStep::Done(Err(ApiStatus::Conflict))
        } else {
            RenameStep::Run(FsOp::Rename(self.old_path, self.new_path), RenameRan)
        }
    }
}

impl RenameRan {
    /// Any failure of the rename is a server error.
    pub fn resume(self, res: Result<(), FsErrorKind>) -> (r: RenameStep)
        ensures
            res is Ok ==> r matches RenameStep::Done(Ok(())),
            res is Err ==> (r matches RenameStep::Done(Err(x)) && x == ApiStatus::InternalServerError),
    {
        match res {
            Ok(()) => RenameStep::Done(Ok(())),
            Err(_) => RenameStep::Done(Err(ApiStatus::InternalServerError)),
        }
    }
}

// ---------------------------------------------------------------------------
// PATCH: renaming a photoset
// ---------------------------------------------------------------------------

/// A step of a rename request.
pub enum UpdateStep {
    Done(Result<ApiStatus, ApiStatus>),
    /// Canonicalize the photoset's path; answer `None` on failure.
    CanonicalizeTarget(FsPath, UpdateTarget),
    /// Canonicalize the directory that will hold the renamed photoset.
    CanonicalizeNewParent(FsPath, UpdateNewParent),
    /// Move the first path to the second (see `rename_entry`).
    Rename(FsPath, FsPath, UpdateRenamed),
}

/// Waits for the canonical photoset path.
pub struct UpdateTarget {
    pub root: FsPath,
    pub new_name: String,
}

/// Waits for the canonical form of the new path's parent.
pub struct UpdateNewParent {
    pub root: FsPath,
    pub old_path: FsPath,
    pub new_path: FsPath,
}

/// Waits for the rename to finish.
pub struct UpdateRenamed;

/// Where a photoset whose canonical path is `c` goes when renamed to
/// `name` (trimmed), and which directory must then hold it.
pub open spec fn renamed_path(c: Seq<PartView>, name: Seq<char>) -> Option<(Seq<PartView>, Seq<PartView>)> {
    match parent_spec(c) {
        None => None,
        Some(dir) => {
            let new_path = join_spec(dir, components_of(trim_spec(name)));
            match parent_spec(new_path) {
                None => None,
                Some(np) => Some((new_path, np)),
            }
        },
    }
}

/// Answers a rename request: the root must be configured, the path must
/// resolve below it, and then its canonical form is asked for.
pub fn update_photoset(root: &Option<FsPath>, path: &FsPath, new_name: &str) -> (r: UpdateStep)
    ensures
        match photoset_path_spec(opt_path(*root), path@) {
            Ok(p) => r matches UpdateStep::CanonicalizeTarget(q, k) && q@ == p && Some(k.root@)
                == opt_path(*root) && k.new_name@ == new_name@,
            Err(e) => r matches UpdateStep::Done(Err(x)) && x == e,
        },
{
    let rt = match root {
        Some(rt) => rt,
        None => return UpdateStep::Done(Err(ApiStatus::InternalServerError)),
    };
    match resolve_photoset_path(root, path) {
        Ok(p) => UpdateStep::CanonicalizeTarget(
            p,
            UpdateTarget { root: rt.copy(), new_name: string_of(new_name) },
        ),
        Err(e) => UpdateStep::Done(Err(e)),
    }
}

impl UpdateTarget {
    /// The canonical photoset must lie below the root and the new name must
    /// not be blank; the new path is the trimmed name joined to the
    /// photoset's parent, and the directory that would hold it is
    /// canonicalized next.
    pub fn resume(self, canonical: Option<FsPath>) -> (r: UpdateStep)
        ensures
            match canonical {
                None => r matches UpdateStep::Done(Err(x)) && x == ApiStatus::NotFound,
                Some(c) => if !starts_with_spec(c@, self.root@) {
                    r matches UpdateStep::Done(Err(x)) && x == ApiStatus::Forbidden
                } else if trim_spec(self.new_name@).len() == 0 {
                    r matches UpdateStep::Done(Err(x)) && x == ApiStatus::BadRequest
                } else {
                    match renamed_path(c@, self.new_name@) {
                        None => r matches UpdateStep::Done(Err(x)) && x == ApiStatus::InternalServerError,
                        Some((new_path, np)) => r matches UpdateStep::CanonicalizeNewParent(q, k)
                            && q@ == np && k.root@ == self.root@ && k.old_path@ == c@
                            && k.new_path@ == new_path,
                    }
                },
            },
    {
        let c = match canonical {
            Some(c) => c,
            None => return UpdateStep::Done(Err(ApiStatus::NotFound)),
        };
        if !c.starts_with(&self.root) {
            return UpdateStep::Done(Err(ApiStatus::Forbidden));
        }
        let name = chars_of(self.new_name.as_str());
        let trimmed = trim(name.as_slice());
        if trimmed.len() == 0 {
            return UpdateStep::Done(Err(ApiStatus::BadRequest));
        }
        let dir = match c.parent() {
            Some(d) => d,
            None => return UpdateStep::Done(Err(ApiStatus::InternalServerError)),
        };
        let trimmed_text = crate::text::string_from_chars(trimmed.as_slice());
        let name_path = FsPath::parse(trimmed_text.as_str());
        let new_path = dir.join(&name_path);
        let np = match new_path.parent() {
            Some(np) => np,
            None => return UpdateStep::Done(Err(ApiStatus::InternalServerError)),
        };
        UpdateStep::CanonicalizeNewParent(
            np,
            UpdateNewParent { root: self.root, old_path: c, new_path },
        )
    }
}

impl UpdateNewParent {
    /// The new path's directory must exist and lie below the root;
    /// otherwise the rename is forbidden.
    pub fn resume(self, canonical: Option<FsPath>) -> (r: UpdateStep)
        ensures
            match canonical {
                Some(np) if starts_with_spec(np@, self.root@) => r matches UpdateStep::Rename(a, b, _)
                    && a@ == self.old_path@ && b@ == self.new_path@,
                _ => r matches UpdateStep::Done(Err(x)) && x == ApiStatus::Forbidden,
            },
    {
        match canonical {
            Some(np) => {
                if np.starts_with(&self.root) {
                    UpdateStep::Rename(self.old_path, self.new_path, UpdateRenamed)
                } else {
                    UpdateStep::Done(Err(ApiStatus::Forbidden))
                }
            },
            None => UpdateStep::Done(Err(ApiStatus::Forbidden)),
        }
    }
}

impl UpdateRenamed {
    /// A finished rename answers `202 Accepted`.
    pub fn resume(self, res: Result<(), ApiStatus>) -> (r: UpdateStep)
        ensures
            res is Ok ==> (r matches UpdateStep::Done(Ok(x)) && x == ApiStatus::Accepted),
            res matches Err(e) ==> (r matches UpdateStep::Done(Err(x)) && x == e),
    {
        match res {
            Ok(()) => UpdateStep::Done(Ok(ApiStatus::Accepted)),
            Err(e) => UpdateStep::Done(Err(e)),
        }
    }
}

// ---------------------------------------------------------------------------
// DELETE: removing a photoset or one of its files
// ---------------------------------------------------------------------------

/// A step of a removal request.
pub enum DeleteStep {
    Done(Result<ApiStatus, ApiStatus>),
    /// Canonicalize the path; answer `None` on failure.
    Canonicalize(FsPath, DeleteCanonical),
    /// Say whether the path is a directory and whether it is a file.
    Inspect(FsPath, DeleteInspect),
    /// Run the removal and answer its outcome.
    Run(FsOp, DeleteRemoved),
}

/// Waits for the canonical path.
pub struct DeleteCanonical {
    pub forced: bool,
}

/// Waits for the kind of the canonical path.
pub struct DeleteInspect {
    pub path: FsPath,
    pub forced: bool,
}

/// Waits for the removal; `dir` tells a directory removal from a file
/// removal.
pub struct DeleteRemoved {
    pub dir: bool,
}

/// The removal of a photoset directory: with everything in it when
/// `forced`, otherwise only when it is empty.
pub fn remove_photoset_dir(target_dir: FsPath, forced: bool) -> (op: FsOp)
    ensures
        forced ==> (op matches FsOp::RemoveDirAll(p) && p@ == target_dir@),
        !forced ==> (op matches FsOp::RemoveDir(p) && p@ == target_dir@),
{
    if forced {
        FsOp::RemoveDirAll(target_dir)
    } else {
        FsOp::RemoveDir(target_dir)
    }
}

/// The removal of a single file.
pub fn remove_photoset_file(target_file: FsPath) -> (op: FsOp)
    ensures
        op matches FsOp::RemoveFile(p) && p@ == target_file@,
{
    FsOp::RemoveFile(target_file)
}

/// Answers a removal request: resolves the path below the root and asks
/// for its canonical form.
pub fn delete_photoset(root: &Option<FsPath>, path: &FsPath, force_removal: bool) -> (r: DeleteStep)
    ensures
        match photoset_path_spec(opt_path(*root), path@) {
            Ok(p) => r matches DeleteStep::Canonicalize(q, k) && q@ == p && k.forced == force_removal,
            Err(e) => r matches DeleteStep::Done(Err(x)) && x == e,
        },
{
    match resolve_photoset_path(root, path) {
        Ok(p) => DeleteStep::Canonicalize(p, DeleteCanonical { forced: force_removal }),
        Err(e) => DeleteStep::Done(Err(e)),
    }
}

impl DeleteCanonical {
    /// A path that cannot be canonicalized is not found.
    pub fn resume(self, canonical: Option<FsPath>) -> (r: DeleteStep)
        ensures
            canonical is None ==> (r matches DeleteStep::Done(Err(x)) && x == ApiStatus::NotFound),
            canonical matches Some(c) ==> (r matches DeleteStep::Inspect(q, k) && q@ == c@ && k.path@
                == c@ && k.forced == self.forced),
    {
        match canonical {
            Some(c) => {
                let q = c.copy();
                DeleteStep::Inspect(q, DeleteInspect { path: c, forced: self.forced })
            },
            None => DeleteStep::Done(Err(ApiStatus::NotFound)),
        }
    }
}

impl DeleteInspect {
    /// A directory is removed as `remove_photoset_dir` says, a file as a
    /// file; anything else is a bad request.
    pub fn resume(self, is_dir: bool, is_file: bool) -> (r: DeleteStep)
        ensures
            is_dir ==> (r matches DeleteStep::Run(op, k) && k.dir && (if self.forced {
                op matches FsOp::RemoveDirAll(p) && p@ == self.path@
            } else {
                op matches FsOp::RemoveDir(p) && p@ == self.path@
            })),
            !is_dir && is_file ==> (r matches DeleteStep::Run(FsOp::RemoveFile(p), k) && !k.dir
                && p@ == self.path@),
            !is_dir && !is_file ==> (r matches DeleteStep::Done(Err(x)) && x == ApiStatus::BadRequest),
    {
        if is_dir {
            DeleteStep::Run(remove_photoset_dir(self.path, self.forced), DeleteRemoved { dir: true })
        } else if is_file {
            DeleteStep::Run(remove_photoset_file(self.path), DeleteRemoved { dir: false })
        } else {
            DeleteStep::Done(Err(ApiStatus::BadRequest))
        }
    }
}

impl DeleteRemoved {
    /// A removal answers `204 No Content`; failures map by kind.
    pub fn resume(self, res: Result<(), FsErrorKind>) -> (r: DeleteStep)
        ensures
            res is Ok ==> (r matches DeleteStep::Done(Ok(x)) && x == ApiStatus::NoContent),
            res matches Err(k) ==> (r matches DeleteStep::Done(Err(x)) && x == (if self.dir {
                remove_dir_error_spec(k)
            } else {
                remove_file_error_spec(k)
            })),
    {
        match res {
            Ok(()) => DeleteStep::Done(Ok(ApiStatus::NoContent)),
            Err(k) => if self.dir {
                DeleteStep::Done(Err(remove_dir_error(k)))
            } else {
                DeleteStep::Done(Err(remove_file_error(k)))
            },
        }
    }
}

// ---------------------------------------------------------------------------
// Saving an upload
// ---------------------------------------------------------------------------

/// The most an upload may hold, in mebibytes.
pub const UPLOAD_LIMIT_MB: i16 = 5000;

/// The most an upload may hold, in bytes (`UPLOAD_LIMIT_MB` mebibytes).
pub fn upload_limit_bytes() -> (n: u64)
    ensures
        n == 5000 * 1024 * 1024,
{
    (UPLOAD_LIMIT_MB as u64) * 1024 * 1024
}

/// A step of saving an upload to a target path through a staging file.
pub enum SaveStep {
    Done(Result<(), ApiStatus>),
    /// Answer whether something already exists at the target.
    CheckTaken(FsPath, SaveChecked),
    /// Canonicalize the staging directory; answer `None` on failure.
    CheckStaging(FsPath, SaveStagingChecked),
    /// Create the staging file; answer whether that worked.
    CreateStaging(FsPath, SaveCreated),
    /// Stream the request body into the staging file, reading at most this
    /// many bytes; answer `None` when streaming fails, otherwise whether the
    /// whole body fit.
    Upload(u64, SaveUploaded),
    /// Flush the staging file; answer whether that worked.
    Flush(SaveFlushed),
    /// Close the staging file, run the operation (the copy to the target)
    /// and answer its outcome.
    Run(FsOp, SaveCopied),
    /// Run these operations, whatever they answer, then finish with the
    /// result.
    Cleanup(Vec<FsOp>, Result<(), ApiStatus>),
}

/// Waits to learn whether the target is taken.
pub struct SaveChecked {
    pub target: FsPath,
    pub staging: Option<FsPath>,
}

/// Waits for the staging directory to be checked.
pub struct SaveStagingChecked {
    pub target: FsPath,
    pub staging: FsPath,
}

/// Waits for the staging file to be created.
pub struct SaveCreated {
    pub target: FsPath,
    pub part: FsPath,
}

/// Waits for the body to be streamed into the staging file.
pub struct SaveUploaded {
    pub target: FsPath,
    pub part: FsPath,
}

/// Waits for the staging file to be flushed.
pub struct SaveFlushed {
    pub target: FsPath,
    pub part: FsPath,
}

/// Waits for the staging file to be copied to the target.
pub struct SaveCopied {
    pub target: FsPath,
    pub part: FsPath,
}

/// The name of the target that the staging file's name starts with.
pub open spec fn target_name(target: Seq<PartView>) -> Seq<char> {
    match file_name_spec(target) {
        Some(n) => n,
        None => Seq::<char>::empty(),
    }
}

/// The staging file for an upload to `target` in the directory `staging`,
/// with the random identifier `id`: `{staging}/{name}-{id}.part`.
pub open spec fn staging_part(staging: Seq<PartView>, target: Seq<PartView>, id: Seq<char>) -> Seq<PartView> {
    staging.push(PartView::Normal(staging_name_spec(target_name(target), id)))
}

/// A random identifier as nanoid makes them.
pub open spec fn is_random_id(id: Seq<char>) -> bool {
    id.len() == 21 && forall|i: int| 0 <= i < id.len() ==> is_id_char(#[trigger] id[i])
}

/// A removal of this path.
pub open spec fn is_removal_of(op: FsOp, p: Seq<PartView>) -> bool {
    op matches FsOp::RemoveFile(q) && q@ == p
}

/// Saves the request body at `target`: first checks that the target is
/// free.
pub fn save_data(target_path: FsPath, staging: Option<FsPath>) -> (r: SaveStep)
    ensures
        r matches SaveStep::CheckTaken(p, k) && p@ == target_path@ && k.target@ == target_path@
            && opt_path(k.staging) == opt_path(staging),
{
    let probe = target_path.copy();
    SaveStep::CheckTaken(probe, SaveChecked { target: target_path, staging })
}

impl SaveChecked {
    /// A taken target is a conflict; a missing staging directory setting is
    /// a server error; otherwise the staging directory is checked.
    pub fn resume(self, taken: bool) -> (r: SaveStep)
        ensures
            taken ==> (r matches SaveStep::Done(Err(x)) && x == ApiStatus::Conflict),
            !taken && self.staging is None ==> (r matches SaveStep::Done(Err(x)) && x
                == ApiStatus::InternalServerError),
            !taken && self.staging is Some ==> (r matches SaveStep::CheckStaging(p, k) && Some(p@)
                == opt_path(self.staging) && Some(k.staging@) == opt_path(self.staging) && k.target@
                == self.target@),
    {
        if taken {
            return SaveStep::Done(Err(ApiStatus::Conflict));
        }
        match self.staging {
            Some(st) => {
                let probe = st.copy();
                SaveStep::CheckStaging(probe, SaveStagingChecked { target: self.target, staging: st })
            },
            None => SaveStep::Done(Err(ApiStatus::InternalServerError)),
        }
    }
}

impl SaveStagingChecked {
    /// A staging directory that cannot be canonicalized is a server error;
    /// otherwise the staging file `{name}-{id}.part` is created in it, with
    /// a fresh random identifier.
    pub fn resume(self, canonical: Option<FsPath>) -> (r: SaveStep)
        ensures
            canonical is None ==> (r matches SaveStep::Done(Err(x)) && x == ApiStatus::InternalServerError),
            canonical is Some ==> (r matches SaveStep::CreateStaging(p, k) && p@ == k.part@ && k.target@
                == self.target@ && exists|id: Seq<char>| is_random_id(id) && k.part@ == staging_part(
                self.staging@,
                self.target@,
                id,
            )),
    {
        if canonical.is_none() {
            return SaveStep::Done(Err(ApiStatus::InternalServerError));
        }
        let name = match self.target.file_name() {
            Some(n) => n,
            None => String::new(),
        };
        let id = random_id();
        let file = staging_file_name(name.as_str(), id.as_str());
        let mut part = self.staging;
        part.push_part(PathPart::Normal(file));
        assert(is_random_id(id@));
        let probe = part.copy();
        SaveStep::CreateStaging(probe, SaveCreated { target: self.target, part })
    }
}

impl SaveCreated {
    /// A staging file that cannot be created is a server error; otherwise
    /// the body is streamed into it, up to the upload limit.
    pub fn resume(self, created: bool) -> (r: SaveStep)
        ensures
            !created ==> (r matches SaveStep::Done(Err(x)) && x == ApiStatus::InternalServerError),
            created ==> (r matches SaveStep::Upload(n, k) && n == 5000 * 1024 * 1024 && k.target@
                == self.target@ && k.part@ == self.part@),
    {
        if !created {
            return SaveStep::Done(Err(ApiStatus::InternalServerError));
        }
        SaveStep::Upload(upload_limit_bytes(), SaveUploaded { target: self.target, part: self.part })
    }
}

impl SaveUploaded {
    /// A failed stream is a server error; a body over the limit removes the
    /// staging file and is too large; otherwise the file is flushed.
    pub fn resume(self, complete: Option<bool>) -> (r: SaveStep)
        ensures
            complete is None ==> (r matches SaveStep::Done(Err(x)) && x == ApiStatus::InternalServerError),
            complete == Some(false) ==> (r matches SaveStep::Cleanup(ops, Err(x)) && x
                == ApiStatus::PayloadTooLarge && ops@.len() == 1 && is_removal_of(ops@[0], self.part@)),
            complete == Some(true) ==> (r matches SaveStep::Flush(k) && k.target@ == self.target@
                && k.part@ == self.part@),
    {
        match complete {
            None => SaveStep::Done(Err(ApiStatus::InternalServerError)),
            Some(false) => {
                let mut ops: Vec<FsOp> = Vec::new();
                ops.push(FsOp::RemoveFile(self.part));
                SaveStep::Cleanup(ops, Err(ApiStatus::PayloadTooLarge))
            },
            Some(true) => SaveStep::Flush(SaveFlushed { target: self.target, part: self.part }),
        }
    }
}

impl SaveFlushed {
    /// A failed flush removes the staging file and is a server error;
    /// otherwise the staging file is copied to the target.
    pub fn resume(self, flushed: bool) -> (r: SaveStep)
        ensures
            !flushed ==> (r matches SaveStep::Cleanup(ops, Err(x)) && x == ApiStatus::InternalServerError
                && ops@.len() == 1 && is_removal_of(ops@[0], self.part@)),
            flushed ==> (r matches SaveStep::Run(FsOp::Copy(a, b), k) && a@ == self.part@ && b@
                == self.target@ && k.part@ == self.part@ && k.target@ == self.target@),
    {
        if !flushed {
            let mut ops: Vec<FsOp> = Vec::new();
            ops.push(FsOp::RemoveFile(self.part));
            return SaveStep::Cleanup(ops, Err(ApiStatus::InternalServerError));
        }
        let from = self.part.copy();
        let to = self.target.copy();
        SaveStep::Run(FsOp::Copy(from, to), SaveCopied { target: self.target, part: self.part })
    }
}

impl SaveCopied {
    /// Either way the staging file is removed; a failed copy also removes
    /// whatever reached the target and is a server error.
    pub fn resume(self, res: Result<(), FsErrorKind>) -> (r: SaveStep)
        ensures
            res is Ok ==> (r matches SaveStep::Cleanup(ops, Ok(())) && ops@.len() == 1
                && is_removal_of(ops@[0], self.part@)),
            res is Err ==> (r matches SaveStep::Cleanup(ops, Err(x)) && x == ApiStatus::InternalServerError
                && ops@.len() == 2 && is_removal_of(ops@[0], self.part@) && is_removal_of(
                ops@[1],
                self.target@,
            )),
    {
        let mut ops: Vec<FsOp> = Vec::new();
        match res {
            Ok(()) => {
                ops.push(FsOp::RemoveFile(self.part));
                SaveStep::Cleanup(ops, Ok(()))
            },
            Err(_) => {
                ops.push(FsOp::RemoveFile(self.part));
                ops.push(FsOp::RemoveFile(self.target));
                SaveStep::Cleanup(ops, Err(ApiStatus::InternalServerError))
            },
        }
    }
}

/// The staging file of an upload lies directly in the staging directory and
/// its name is a single plain file name, so the upload never writes outside
/// that directory before the final copy.
pub proof fn lemma_staging_file_in_staging_dir(staging: Seq<PartView>, target: Seq<PartView>, id: Seq<char>)
    requires
        is_random_id(id),
    ensures
        staging_part(staging, target, id).drop_last() == staging,
        !target_name(target).contains('/') ==> (staging_part(staging, target, id).last() matches PartView::Normal(n)
            && !n.contains('/')),
{
    let n = staging_name_spec(target_name(target), id);
    assert(staging_part(staging, target, id).drop_last() =~= staging);
    if !target_name(target).contains('/') {
        assert(!n.contains('/')) by {
            if n.contains('/') {
                let j = choose|j: int| 0 <= j < n.len() && n[j] == '/';
                let t = target_name(target);
                if j < t.len() {
                    assert(t[j] == '/');
                } else if j > t.len() && j < t.len() + 1 + 21 {
                    assert(id[j - t.len() - 1] == '/');
                    assert(is_id_char(id[j - t.len() - 1]));
                }
            }
        }
    }
}

// ---------------------------------------------------------------------------
// PUT: uploading a file into a photoset
// ---------------------------------------------------------------------------

/// A step of an upload request.
pub enum PutStep {
    Done(Result<ApiStatus, ApiStatus>),
    /// Canonicalize the target's directory; answer `None` on failure.
    CanonicalizeParent(FsPath, PutParent),
    /// Say whether the path is a directory.
    InspectParent(FsPath, PutInspect),
    /// Save the body at the target through the staging directory (see
    /// `save_data`).
    Save(FsPath, Option<FsPath>, PutSaved),
}

/// Waits for the canonical directory of the target.
pub struct PutParent {
    pub target: FsPath,
    pub staging: Option<FsPath>,
}

/// Waits to learn whether the target's directory is a directory.
pub struct PutInspect {
    pub target: FsPath,
    pub staging: Option<FsPath>,
}

/// Waits for the upload to be saved.
pub struct PutSaved;

/// Answers an upload request: the path must resolve below the root and have
/// a parent, whose canonical form is asked for next.
pub fn put_photoset(root: &Option<FsPath>, path: &FsPath, staging: Option<FsPath>) -> (r: PutStep)
    ensures
        match photoset_path_spec(opt_path(*root), path@) {
            Ok(p) => match parent_spec(p) {
                Some(dir) => r matches PutStep::CanonicalizeParent(q, k) && q@ == dir && k.target@ == p
                    && opt_path(k.staging) == opt_path(staging),
                None => r matches PutStep::Done(Err(x)) && x == ApiStatus::BadRequest,
            },
            Err(e) => r matches PutStep::Done(Err(x)) && x == e,
        },
{
    let target = match resolve_photoset_path(root, path) {
        Ok(p) => p,
        Err(e) => return PutStep::Done(Err(e)),
    };
    match target.parent() {
        Some(dir) => PutStep::CanonicalizeParent(dir, PutParent { target, staging }),
        None => PutStep::Done(Err(ApiStatus::BadRequest)),
    }
}

impl PutParent {
    /// A directory that cannot be canonicalized is not found.
    pub fn resume(self, canonical: Option<FsPath>) -> (r: PutStep)
        ensures
            canonical is None ==> (r matches PutStep::Done(Err(x)) && x == ApiStatus::NotFound),
            canonical matches Some(c) ==> (r matches PutStep::InspectParent(q, k) && q@ == c@
                && k.target@ == self.target@ && opt_path(k.staging) == opt_path(self.staging)),
    {
        match canonical {
            Some(c) => PutStep::InspectParent(c, PutInspect { target: self.target, staging: self.staging }),
            None => PutStep::Done(Err(ApiStatus::NotFound)),
        }
    }
}

impl PutInspect {
    /// Uploads go into directories only.
    pub fn resume(self, is_dir: bool) -> (r: PutStep)
        ensures
            !is_dir ==> (r matches PutStep::Done(Err(x)) && x == ApiStatus::BadRequest),
            is_dir ==> (r matches PutStep::Save(t, st, _) && t@ == self.target@ && opt_path(st)
                == opt_path(self.staging)),
    {
        if !is_dir {
            return PutStep::Done(Err(ApiStatus::BadRequest));
        }
        PutStep::Save(self.target, self.staging, PutSaved)
    }
}

impl PutSaved {
    /// A saved upload answers `201 Created`.
    pub fn resume(self, res: Result<(), ApiStatus>) -> (r: PutStep)
        ensures
            res is Ok ==> (r matches PutStep::Done(Ok(x)) && x == ApiStatus::Created),
            res matches Err(e) ==> (r matches PutStep::Done(Err(x)) && x == e),
    {
        match res {
            Ok(()) => PutStep::Done(Ok(ApiStatus::Created)),
            Err(e) => PutStep::Done(Err(e)),
        }
    }
}

/// A request path with no `..` and no root component always resolves, to
/// the root joined with it: the empty path to the root itself, and a path
/// of plain names to the root followed by those names. Only a path that
/// could climb out is refused, and only as forbidden.
pub proof fn lemma_plain_request_path_resolves(root: Seq<PartView>, short: Seq<PartView>)
    ensures
        !escapes_spec(short) ==> photoset_path_spec(Some(root), short) == Ok::<
            Seq<PartView>,
            ApiStatus,
        >(join_spec(root, short)),
        photoset_path_spec(Some(root), Seq::<PartView>::empty()) == Ok::<Seq<PartView>, ApiStatus>(
            root,
        ),
        (root.len() > 0 && forall|i: int| 0 <= i < short.len() ==> #[trigger] short[i] is Normal)
            ==> photoset_path_spec(Some(root), short) == Ok::<Seq<PartView>, ApiStatus>(
            root + short,
        ),
        escapes_spec(short) ==> photoset_path_spec(Some(root), short) == Err::<
            Seq<PartView>,
            ApiStatus,
        >(ApiStatus::Forbidden),
        photoset_path_spec(None, short) == Err::<Seq<PartView>, ApiStatus>(
            ApiStatus::InternalServerError,
        ),
{
    if root.len() > 0 && forall|i: int| 0 <= i < short.len() ==> #[trigger] short[i] is Normal {
        if escapes_spec(short) {
            let i = choose|i: int| 0 <= i < short.len() && (short[i] is Parent || short[i] is Root);
            assert(short[i] is Normal);
        }
    }
    assert(root + Seq::<PartView>::empty() =~= root);
}

/// A media file asked for without a range is sent whole: its size, and the
/// part from its first byte to its last.
pub proof fn lemma_unranged_stream_sends_whole_file(
    r: Result<FileServerResponse, ApiStatus>,
    n: u64,
    ext: Seq<char>,
)
    requires
        n > 0,
        streamed_answer(r, StreamProbe::Sized(n), None, ext),
    ensures
        r matches Ok(FileServerResponse::RangedContent(sf)) && sf.size == n && sf.range == (
            0u64,
            (n - 1) as u64,
        ) && sf.range.1 - sf.range.0 + 1 == n,
{
}

/// A media file asked for with a range is sent in the part that the range
/// selects from its size, or refused as unsatisfiable when it selects none.
pub proof fn lemma_ranged_stream_sends_selection(
    r: Result<FileServerResponse, ApiStatus>,
    n: u64,
    h: RangeHeader,
    ext: Seq<char>,
)
    requires
        streamed_answer(r, StreamProbe::Sized(n), Some(h), ext),
    ensures
        resolve_spec(h, n) matches Some(p) ==> (r matches Ok(FileServerResponse::RangedContent(sf))
            && sf.size == n && sf.range == p),
        resolve_spec(h, n) is None ==> r == Err::<FileServerResponse, ApiStatus>(
            ApiStatus::RangeNotSatisfiable,
        ),
{
}

/// A media file that cannot be opened is not found; one whose size cannot
/// be read is a server error.
pub proof fn lemma_unreadable_stream_refused(
    r: Result<FileServerResponse, ApiStatus>,
    range: Option<RangeHeader>,
    ext: Seq<char>,
)
    ensures
        streamed_answer(r, StreamProbe::OpenFailed, range, ext) ==> r == Err::<
            FileServerResponse,
            ApiStatus,
        >(ApiStatus::NotFound),
        streamed_answer(r, StreamProbe::SizeUnknown, range, ext) ==> r == Err::<
            FileServerResponse,
            ApiStatus,
        >(ApiStatus::InternalServerError),
{
}

/// A streamed media file carries the content type that rocket names for its
/// extension, and `video/mp4` when rocket names none.
pub proof fn lemma_stream_content_type(
    r: Result<FileServerResponse, ApiStatus>,
    probe: StreamProbe,
    range: Option<RangeHeader>,
    ext: Seq<char>,
)
    requires
        streamed_answer(r, probe, range, ext),
    ensures
        r matches Ok(FileServerResponse::RangedContent(sf)) ==> (match flexible_media_type(ext) {
            Some(t) => sf.content_type@ == t,
            None => sf.content_type@ == seq!['v', 'i', 'd', 'e', 'o', '/', 'm', 'p', '4'],
        }),
{
}

} // verus!
