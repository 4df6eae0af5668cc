//! The first server's raw file browser: below the archive path, a
//! directory answers with the paths of its entries and a file with itself.
use vstd::prelude::*;
use crate::fspath::{join_spec, part_text, starts_with_spec, FsPath, PartView, PathPart};
use crate::server::request_guards::UserAuth;
use crate::status::ApiStatus;
use crate::text::{chars_of, string_from_chars};

verus! {

/// The answer of the browser.
#[derive(Debug)]
pub enum BrowseResponse {
    /// The file, as opened by the server.
    File,
    /// The paths of a directory's entries, relative to the archive path.
    Listing(Vec<String>),
}

/// The text of a relative path: its components joined by `/`.
pub open spec fn path_text(s: Seq<PartView>) -> Seq<char>
    decreases s.len(),
{
    if s.len() == 0 {
        Seq::<char>::empty()
    } else if s.len() == 1 {
        part_text(s[0])
    } else {
        path_text(s.drop_last()) + seq!['/'] + part_text(s.last())
    }
}

/// The entries that lie below `base`, as text relative to it, in the
/// order read (`strip_prefix(base)`; the others are left out).
pub open spec fn stripped_names(base: Seq<PartView>, paths: Seq<Seq<PartView>>) -> Seq<Seq<char>>
    decreases paths.len(),
{
    if paths.len() == 0 {
        Seq::<Seq<char>>::empty()
    } else {
        let rest = stripped_names(base, paths.drop_last());
        let p = paths.last();
        if starts_with_spec(p, base) {
            rest.push(path_text(p.skip(base.len() as int)))
        } else {
            rest
        }
    }
}

/// The views of a list of paths.
pub open spec fn paths_view(v: Seq<FsPath>) -> Seq<Seq<PartView>> {
    v.map_values(|p: FsPath| p@)
}

/// The views of a list of strings.
pub open spec fn strings_view(v: Seq<String>) -> Seq<Seq<char>> {
    v.map_values(|s: String| s@)
}

/// The text of the components of `p` from the `k`-th on.
pub fn text_after(p: &FsPath, k: usize) -> (s: String)
    requires
        k <= p@.len(),
    ensures
        s@ == path_text(p@.skip(k as int)),
{
    let parts = p.parts();
    let n = parts.len();
    let mut v: Vec<char> = Vec::new();
    let mut i = k;
    assert(p@.skip(k as int).take(0) =~= Seq::<PartView>::empty());
    while i < n
        invariant
            k <= i <= n == p@.len(),
            parts@.map_values(|q: PathPart| q@) == p@,
            v@ == path_text(p@.skip(k as int).take(i - k)),
        decreases n - i,
    {
        let t = parts[i].text();
        let mut tc = chars_of(t.as_str());
        let ghost before = v@;
        let ghost s = p@.skip(k as int).take(i + 1 - k);
        assert(s.drop_last() =~= p@.skip(k as int).take(i - k));
        assert(s.last() == p@[i as int]);
        assert(p@[i as int] == parts@[i as int]@);
        if i > k {
            v.push('/');
        } else {
            assert(s.len() == 1);
            assert(before =~= Seq::<char>::empty());
        }
        v.append(&mut tc);
        if i > k {
            assert(v@ =~= before + seq!['/'] + part_text(s.last()));
        } else {
            assert(v@ =~= part_text(s[0]));
        }
        i = i + 1;
    }
    assert(p@.skip(k as int).take(n - k) =~= p@.skip(k as int));
    string_from_chars(v.as_slice())
}

/// The entries below `base`, as text relative to it.
pub fn strip_entries(base: &FsPath, paths: &Vec<FsPath>) -> (r: Vec<String>)
    ensures
        strings_view(r@) == stripped_names(base@, paths_view(paths@)),
{
    let mut out: Vec<String> = Vec::new();
    let n = paths.len();
    assert(paths_view(paths@).take(0) =~= Seq::<Seq<PartView>>::empty());
    assert(strings_view(out@) =~= Seq::<Seq<char>>::empty());
    for i in 0..n
        invariant
            n == paths@.len(),
            strings_view(out@) == stripped_names(base@, paths_view(paths@).take(i as int)),
    {
        assert(paths_view(paths@).take(i + 1).drop_last() =~= paths_view(paths@).take(i as int));
        assert(paths_view(paths@).take(i + 1).last() == paths@[i as int]@);
        if paths[i].starts_with(base) {
            let t = text_after(&paths[i], base.len());
            let ghost before = out@;
            out.push(t);
            assert(strings_view(out@) =~= strings_view(before).push(t@));
        }
    }
    assert(paths_view(paths@).take(n as int) =~= paths_view(paths@));
    out
}

/// A step of a browse request.
pub enum BrowseStep {
    Done(Result<BrowseResponse, ApiStatus>),
    /// Canonicalize the path; answer `None` on failure.
    Canonicalize(FsPath, BrowseCanonical),
    /// Say whether the path is a directory.
    Inspect(FsPath, BrowseInspect),
    /// Read the paths of the directory's entries (skipping entries that
    /// cannot be read); answer `None` when the directory cannot be read.
    ReadDir(FsPath, BrowseDirectory),
    /// Open the file; answer whether it opened.
    OpenFile(FsPath, BrowseFile),
}

/// Waits for the canonical path.
pub struct BrowseCanonical {
    pub base: FsPath,
}

/// Waits to learn whether the path is a directory.
pub struct BrowseInspect {
    pub base: FsPath,
    pub path: FsPath,
}

/// Waits for the paths of the entries.
pub struct BrowseDirectory {
    pub base: FsPath,
}

/// Waits for the file to be opened.
pub struct BrowseFile;

/// Answers a browse request for `path` below the archive path.
pub fn serve_files(server_path: &FsPath, path: &FsPath, _user_auth: UserAuth) -> (r: BrowseStep)
    ensures
        r matches BrowseStep::Canonicalize(q, k) && q@ == join_spec(server_path@, path@) && k.base@ == server_path@,
{
    let full = server_path.join(path);
    BrowseStep::Canonicalize(full, BrowseCanonical { base: server_path.copy() })
}

impl BrowseCanonical {
    /// A path that cannot be canonicalized is not found, and one that does
    /// not lie below the archive path is forbidden.
    pub fn resume(self, canonical: Option<FsPath>) -> (r: BrowseStep)
        ensures
            match canonical {
                None => r matches BrowseStep::Done(Err(x)) && x == ApiStatus::NotFound,
                Some(c) => if starts_with_spec(c@, self.base@) {
                    r matches BrowseStep::Inspect(q, k) && q@ == c@ && k.path@ == c@ && k.base@ == self.base@
                } else {
                    r matches BrowseStep::Done(Err(x)) && x == ApiStatus::Forbidden
                },
            },
    {
        let c = match canonical {
            Some(c) => c,
            None => return BrowseStep::Done(Err(ApiStatus::NotFound)),
        };
        if !c.starts_with(&self.base) {
            return BrowseStep::Done(Err(ApiStatus::Forbidden));
        }
        let q = c.copy();
        BrowseStep::Inspect(q, BrowseInspect { base: self.base, path: c })
    }
}

impl BrowseInspect {
    /// A directory is listed; anything else is opened as a file.
    pub fn resume(self, is_dir: bool) -> (r: BrowseStep)
        ensures
            is_dir ==> (r matches BrowseStep::ReadDir(q, k) && q@ == self.path@ && k.base@ == self.base@),
            !is_dir ==> (r matches BrowseStep::OpenFile(q, _) && q@ == self.path@),
    {
        if is_dir {
            BrowseStep::ReadDir(self.path, BrowseDirectory { base: self.base })
        } else {
            BrowseStep::OpenFile(self.path, BrowseFile)
        }
    }
}

impl BrowseDirectory {
    /// A directory that cannot be read is not found; otherwise the answer
    /// lists its entries relative to the archive path.
    pub fn resume(self, paths: Option<Vec<FsPath>>) -> (r: BrowseStep)
        ensures
            paths is None ==> (r matches BrowseStep::Done(Err(x)) && x == ApiStatus::NotFound),
            paths matches Some(v) ==> (r matches BrowseStep::Done(Ok(BrowseResponse::Listing(names)))
                && strings_view(names@) == stripped_names(self.base@, paths_view(v@))),
    {
        match paths {
            Some(v) => BrowseStep::Done(Ok(BrowseResponse::Listing(strip_entries(&self.base, &v)))),
            None => BrowseStep::Done(Err(ApiStatus::NotFound)),
        }
    }
}

impl BrowseFile {
    /// Answers with the file, or not found.
    pub fn resume(self, opened: bool) -> (r: BrowseStep)
        ensures
            opened ==> r matches BrowseStep::Done(Ok(BrowseResponse::File)),
            !opened ==> (r matches BrowseStep::Done(Err(x)) && x == ApiStatus::NotFound),
    {
        if opened {
            BrowseStep::Done(Ok(BrowseResponse::File))
        } else {
            BrowseStep::Done(Err(ApiStatus::NotFound))
        }
    }
}

} // verus!
