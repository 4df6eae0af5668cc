//! The fixed-directory photoset API: photosets live in a fixed directory below the
//! archive root, every piece of a client-supplied path is cleaned with
//! `sanitize_filename`, and photos are moved between the photo directory
//! and the photosets.
use vstd::prelude::*;
use crate::effects::{create_tree_error, create_tree_error_spec, remove_dir_error,
    remove_dir_error_spec, FsErrorKind};
use crate::fspath::{components_of, is_plain_name, join_spec, lemma_plain_name_components,
    parent_spec, part_text, starts_with_spec, FsPath, PartView, PathPart};
use crate::naming::{lemma_sanitized_is_plain_name, sanitize_name, sanitized};
use crate::photoset::{opt_path, FsOp};
use crate::status::ApiStatus;
use crate::text::string_of;

verus! {

/// The directory below the archive root that holds the photos.
pub const PHOTO_DIR: &'static str = "photos";

/// The directory below the archive root that holds the photosets.
pub const PHOTOSET_DIR: &'static str = "photosets";

/// The form of a photoset rename: the new name, if any.
#[derive(Debug)]
pub struct PhotoSetUpdateForm {
    pub new_name: Option<String>,
}

/// The form of a photoset assignment: photos to move into the photoset and
/// photos to move back out of it.
#[derive(Debug)]
pub struct PhotoSetPutForm {
    pub additions: Vec<String>,
    pub removals: Vec<String>,
}

/// The cleaned components of a client-supplied path: each piece is cleaned
/// with `sanitize_filename`, and the pieces that become empty disappear.
pub open spec fn cleaned_parts(p: Seq<PartView>) -> Seq<PartView>
    decreases p.len(),
{
    if p.len() == 0 {
        Seq::<PartView>::empty()
    } else {
        let rest = cleaned_parts(p.drop_last());
        let s = sanitized(part_text(p.last()));
        if s.len() == 0 {
            rest
        } else {
            rest.push(PartView::Normal(s))
        }
    }
}

/// `root` followed by the directory `dir`.
pub open spec fn below(root: Seq<PartView>, dir: Seq<char>) -> Seq<PartView> {
    root.push(PartView::Normal(dir))
}

/// Where a client-supplied photoset path leads: an empty path is a bad
/// request, an unconfigured root a server error, and a path that cleans
/// down to nothing (the photoset directory itself) is forbidden.
pub open spec fn photoset_api_path_spec(photoset: Seq<PartView>, serve: Option<Seq<PartView>>) -> Result<
    Seq<PartView>,
    ApiStatus,
> {
    if photoset.len() == 0 {
        Err(ApiStatus::BadRequest)
    } else {
        match serve {
            None => Err(ApiStatus::InternalServerError),
            Some(root) => {
                let storage = below(root, PHOTOSET_DIR@);
                let full = join_spec(storage, cleaned_parts(photoset));
                if full == storage || !starts_with_spec(full, storage) {
                    Err(ApiStatus::Forbidden)
                } else {
                    Ok(full)
                }
            },
        }
    }
}

/// Refuses a path that is the storage root itself or lies outside it.
pub fn root_guard_check(storage_root: &FsPath, full_path: &FsPath) -> (r: Result<(), ApiStatus>)
    ensures
        (full_path@ == storage_root@ || !starts_with_spec(full_path@, storage_root@)) ==> r
            == Err::<(), ApiStatus>(ApiStatus::Forbidden),
        !(full_path@ == storage_root@ || !starts_with_spec(full_path@, storage_root@)) ==> r is Ok,
{
    if full_path.same(storage_root) || !full_path.starts_with(storage_root) {
        return Err(ApiStatus::Forbidden);
    }
    Ok(())
}

/// Cleans each piece of a client-supplied path.
pub fn clean_path(photoset: &FsPath) -> (r: FsPath)
    ensures
        r@ == cleaned_parts(photoset@),
{
    let parts = photoset.parts();
    let n = parts.len();
    let mut out = FsPath::empty();
    for i in 0..n
        invariant
            n == photoset@.len(),
            parts@.map_values(|q: PathPart| q@) == photoset@,
            out@ == cleaned_parts(photoset@.take(i as int)),
    {
        let text = parts[i].text();
        let s = sanitize_name(text.as_str());
        assert(photoset@.take(i + 1).drop_last() =~= photoset@.take(i as int));
        assert(photoset@[i as int] == parts@[i as int]@);
        if !s.as_str().is_empty() {
            out.push_part(PathPart::Normal(s));
        }
    }
    assert(photoset@.take(n as int) =~= photoset@);
    out
}

/// The path `root/dir`.
pub fn dir_below(root: &FsPath, dir: &str) -> (r: FsPath)
    ensures
        r@ == below(root@, dir@),
{
    let mut r = root.copy();
    r.push_part(PathPart::Normal(string_of(dir)));
    r
}

/// Resolves a client-supplied photoset path below the photoset directory.
pub fn resolve_photoset_path(photoset: &FsPath, serve: &Option<FsPath>) -> (r: Result<FsPath, ApiStatus>)
    ensures
        match photoset_api_path_spec(photoset@, opt_path(*serve)) {
            Ok(p) => r matches Ok(q) && q@ == p,
            Err(e) => r matches Err(x) && x == e,
        },
{
    if photoset.len() == 0 {
        return Err(ApiStatus::BadRequest);
    }
    let cleaned = clean_path(photoset);
    let root = match serve {
        Some(root) => root,
        None => return Err(ApiStatus::InternalServerError),
    };
    let storage_root = dir_below(root, PHOTOSET_DIR);
    let full_path = storage_root.join(&cleaned);
    match root_guard_check(&storage_root, &full_path) {
        Ok(()) => Ok(full_path),
        Err(e) => Err(e),
    }
}

proof fn lemma_cleaned_parts_plain(p: Seq<PartView>)
    ensures
        forall|i: int| 0 <= i < cleaned_parts(p).len() ==> (#[trigger] cleaned_parts(p)[i] matches PartView::Normal(n)
            && n.len() > 0 && !n.contains('/') && n != seq!['.'] && n != seq!['.', '.']),
    decreases p.len(),
{
    if p.len() > 0 {
        lemma_cleaned_parts_plain(p.drop_last());
        lemma_sanitized_is_plain_name(part_text(p.last()));
        let rest = cleaned_parts(p.drop_last());
        let s = sanitized(part_text(p.last()));
        if s.len() > 0 {
            assert forall|i: int| 0 <= i < rest.push(PartView::Normal(s)).len() implies (#[trigger] rest.push(
                PartView::Normal(s),
            )[i] matches PartView::Normal(n) && n.len() > 0 && !n.contains('/') && n != seq!['.']
                && n != seq!['.', '.']) by {
                if i < rest.len() {
                    assert(rest.push(PartView::Normal(s))[i] == rest[i]);
                }
            }
        }
    }
}

/// A photoset path that resolves lies strictly below the photoset
/// directory, and every component after it is a plain name: not empty, no
/// `/`, neither `.` nor `..`. Whatever the client sends, the path cannot
/// climb out of the photoset directory.
pub proof fn lemma_photoset_path_is_plain_below_storage(photoset: Seq<PartView>, root: Seq<PartView>)
    requires
        photoset_api_path_spec(photoset, Some(root)) is Ok,
    ensures
        ({
            let storage = below(root, PHOTOSET_DIR@);
            let full = photoset_api_path_spec(photoset, Some(root))->Ok_0;
            &&& starts_with_spec(full, storage)
            &&& full.len() > storage.len()
            &&& forall|i: int| storage.len() <= i < full.len() ==> (#[trigger] full[i] matches PartView::Normal(n)
                && n.len() > 0 && !n.contains('/') && n != seq!['.'] && n != seq!['.', '.'])
        }),
{
    let storage = below(root, PHOTOSET_DIR@);
    let c = cleaned_parts(photoset);
    lemma_cleaned_parts_plain(photoset);
    let full = join_spec(storage, c);
    if c.len() > 0 {
        assert(c[0] is Normal);
    }
    assert(full =~= storage + c);
    assert forall|i: int| storage.len() <= i < full.len() implies (#[trigger] full[i] matches PartView::Normal(n)
        && n.len() > 0 && !n.contains('/') && n != seq!['.'] && n != seq!['.', '.']) by {
        assert(full[i] == c[i - storage.len()]);
    }
    if full.len() == storage.len() {
        assert(full.take(storage.len() as int) =~= full);
    }
}

// ---------------------------------------------------------------------------
// POST: creating a photoset
// ---------------------------------------------------------------------------

/// A step of a creation request.
pub enum CreateStep {
    Done(Result<ApiStatus, ApiStatus>),
    /// Answer whether something already exists at the path.
    CheckTaken(FsPath, CreateChecked),
    /// Run the operation (creating the tree) and answer its outcome.
    Run(FsOp, CreateMade),
}

/// Waits to learn whether the photoset exists already.
pub struct CreateChecked {
    pub path: FsPath,
}

/// Waits for the tree to be created.
pub struct CreateMade;

/// Answers a creation request: resolves the cleaned path and checks that
/// it is free.
pub fn create_photoset(photoset: &FsPath, serve: &Option<FsPath>) -> (r: CreateStep)
    ensures
        match photoset_api_path_spec(photoset@, opt_path(*serve)) {
            Ok(p) => r matches CreateStep::CheckTaken(q, k) && q@ == p && k.path@ == p,
            Err(e) => r matches CreateStep::Done(Err(x)) && x == e,
        },
{
    match resolve_photoset_path(photoset, serve) {
        Ok(p) => {
            let q = p.copy();
            CreateStep::CheckTaken(q, CreateChecked { path: p })
        },
        Err(e) => CreateStep::Done(Err(e)),
    }
}

impl CreateChecked {
    /// An existing photoset is a conflict; otherwise create its tree.
    pub fn resume(self, taken: bool) -> (r: CreateStep)
        ensures
            taken ==> (r matches CreateStep::Done(Err(x)) && x == ApiStatus::Conflict),
            !taken ==> (r matches CreateStep::Run(FsOp::CreateDirAll(p), _) && p@ == self.path@),
    {
        if taken {
            CreateStep::Done(Err(ApiStatus::Conflict))
        } else {
            CreateStep::Run(FsOp::CreateDirAll(self.path), CreateMade)
        }
    }
}

impl CreateMade {
    /// A created tree answers `201 Created`; a denied permission is
    /// forbidden, other failures are server errors.
    pub fn resume(self, res: Result<(), FsErrorKind>) -> (r: CreateStep)
        ensures
            res is Ok ==> (r matches CreateStep::Done(Ok(x)) && x == ApiStatus::Created),
            res matches Err(k) ==> (r matches CreateStep::Done(Err(x)) && x == create_tree_error_spec(k)),
    {
        match res {
            Ok(()) => CreateStep::Done(Ok(ApiStatus::Created)),
            Err(k) => CreateStep::Done(Err(create_tree_error(k))),
        }
    }
}

// ---------------------------------------------------------------------------
// PATCH: renaming a photoset
// ---------------------------------------------------------------------------

/// A step of a rename request.
pub enum UpdateStep {
    Done(Result<ApiStatus, ApiStatus>),
    /// Answer whether something exists at the path.
    CheckExists(FsPath, UpdateChecked),
    /// Run the operation (the rename) and answer its outcome.
    Run(FsOp, UpdateRenamed),
}

/// Waits to learn whether the photoset exists.
pub struct UpdateChecked {
    pub path: FsPath,
    pub new_name: Option<String>,
}

/// Waits for the rename.
pub struct UpdateRenamed;

/// Where a photoset at `p` goes when renamed to the (cleaned) name.
pub open spec fn renamed_to(p: Seq<PartView>, name: Seq<char>) -> Option<Seq<PartView>> {
    match parent_spec(p) {
        Some(dir) => Some(join_spec(dir, components_of(sanitized(name)))),
        None => None,
    }
}

/// Answers a rename request: resolves the cleaned path and checks that the
/// photoset exists.
pub fn update_photoset(photoset: &FsPath, serve: &Option<FsPath>, form: PhotoSetUpdateForm) -> (r: UpdateStep)
    ensures
        match photoset_api_path_spec(photoset@, opt_path(*serve)) {
            Ok(p) => r matches UpdateStep::CheckExists(q, k) && q@ == p && k.path@ == p && k.new_name
                == form.new_name,
            Err(e) => r matches UpdateStep::Done(Err(x)) && x == e,
        },
{
    match resolve_photoset_path(photoset, serve) {
        Ok(p) => {
            let q = p.copy();
            UpdateStep::CheckExists(q, UpdateChecked { path: p, new_name: form.new_name })
        },
        Err(e) => UpdateStep::Done(Err(e)),
    }
}

impl UpdateChecked {
    /// A missing photoset is not found; without a new name nothing changes;
    /// otherwise the photoset moves to the cleaned name in its directory.
    pub fn resume(self, exists: bool) -> (r: UpdateStep)
        ensures
            !exists ==> (r matches UpdateStep::Done(Err(x)) && x == ApiStatus::NotFound),
            exists && self.new_name is None ==> (r matches UpdateStep::Done(Ok(x)) && x == ApiStatus::Accepted),
            exists && self.new_name is Some ==> match renamed_to(self.path@, self.new_name->Some_0@) {
                None => r matches UpdateStep::Done(Err(x)) && x == ApiStatus::InternalServerError,
                Some(np) => r matches UpdateStep::Run(FsOp::Rename(a, b), _) && a@ == self.path@
                    && b@ == np,
            },
    {
        if !exists {
            return UpdateStep::Done(Err(ApiStatus::NotFound));
        }
        match self.new_name {
            Some(name) => {
                let clean = sanitize_name(name.as_str());
                let dir = match self.path.parent() {
                    Some(d) => d,
                    None => return UpdateStep::Done(Err(ApiStatus::InternalServerError)),
                };
                let new_full_path = dir.join(&FsPath::parse(clean.as_str()));
                UpdateStep::Run(FsOp::Rename(self.path, new_full_path), UpdateRenamed)
            },
            None => UpdateStep::Done(Ok(ApiStatus::Accepted)),
        }
    }
}

impl UpdateRenamed {
    /// A rename answers `202 Accepted`; any failure is a server error.
    pub fn resume(self, res: Result<(), FsErrorKind>) -> (r: UpdateStep)
        ensures
            res is Ok ==> (r matches UpdateStep::Done(Ok(x)) && x == ApiStatus::Accepted),
            res is Err ==> (r matches UpdateStep::Done(Err(x)) && x == ApiStatus::InternalServerError),
    {
        match res {
            Ok(()) => UpdateStep::Done(Ok(ApiStatus::Accepted)),
            Err(_) => UpdateStep::Done(Err(ApiStatus::InternalServerError)),
        }
    }
}

// ---------------------------------------------------------------------------
// PUT: moving photos into and out of a photoset
// ---------------------------------------------------------------------------

/// The values of a list of moves.
pub open spec fn moves_view(v: Seq<(FsPath, FsPath)>) -> Seq<(Seq<PartView>, Seq<PartView>)> {
    v.map_values(|m: (FsPath, FsPath)| (m.0@, m.1@))
}

/// The move of one name from the directory `from` to the directory `to`.
pub open spec fn move_of(from: Seq<PartView>, to: Seq<PartView>, name: Seq<char>) -> (Seq<PartView>, Seq<PartView>) {
    (join_spec(from, components_of(name)), join_spec(to, components_of(name)))
}

/// The moves of an assignment, in order: each addition from the photo
/// directory into the photoset, then each removal from the photoset back to
/// the photo directory.
pub open spec fn planned_moves(photos: Seq<PartView>, set: Seq<PartView>, additions: Seq<String>, removals: Seq<String>) -> Seq<(Seq<PartView>, Seq<PartView>)> {
    Seq::new(additions.len(), |i: int| move_of(photos, set, additions[i]@)) + Seq::new(
        removals.len(),
        |i: int| move_of(set, photos, removals[i]@),
    )
}

/// Lists the moves of an assignment.
pub fn plan_moves(photos_path: &FsPath, photoset_path: &FsPath, form: &PhotoSetPutForm) -> (r: Vec<(FsPath, FsPath)>)
    ensures
        moves_view(r@) == planned_moves(photos_path@, photoset_path@, form.additions@, form.removals@),
{
    let mut moves: Vec<(FsPath, FsPath)> = Vec::new();
    let na = form.additions.len();
    for i in 0..na
        invariant
            na == form.additions@.len(),
            moves_view(moves@) == Seq::new(i as nat, |j: int| move_of(photos_path@, photoset_path@, form.additions@[j]@)),
    {
        let name = FsPath::parse(form.additions[i].as_str());
        let src = photos_path.join(&name);
        let dest = photoset_path.join(&name);
        let ghost before = moves@;
        let ghost mv = (src@, dest@);
        moves.push((src, dest));
        assert(moves_view(moves@) =~= moves_view(before).push(mv));
        assert(moves_view(moves@) =~= Seq::new((i + 1) as nat, |j: int| move_of(photos_path@, photoset_path@, form.additions@[j]@)));
    }
    let ghost adds = moves_view(moves@);
    let nr = form.removals.len();
    for i in 0..nr
        invariant
            nr == form.removals@.len(),
            moves_view(moves@) == adds + Seq::new(i as nat, |j: int| move_of(photoset_path@, photos_path@, form.removals@[j]@)),
    {
        let name = FsPath::parse(form.removals[i].as_str());
        let src = photoset_path.join(&name);
        let dest = photos_path.join(&name);
        let ghost before = moves@;
        let ghost mv = (src@, dest@);
        moves.push((src, dest));
        assert(moves_view(moves@) =~= moves_view(before).push(mv));
        assert(moves_view(moves@) =~= adds + Seq::new((i + 1) as nat, |j: int| move_of(photoset_path@, photos_path@, form.removals@[j]@)));
    }
    moves
}

/// A step of an assignment request.
pub enum AssignStep {
    Done(Result<ApiStatus, ApiStatus>),
    /// Answer whether the photoset exists.
    CheckPhotoset(FsPath, AssignChecked),
    /// Answer whether the source of the next move exists.
    CheckSource(FsPath, AssignSources),
    /// Run the operation (the next move) and answer its outcome.
    Move(FsOp, AssignMoves),
}

/// Waits to learn whether the photoset exists.
pub struct AssignChecked {
    pub moves: Vec<(FsPath, FsPath)>,
}

/// Checks the sources of the moves one after the other.
pub struct AssignSources {
    moves: Vec<(FsPath, FsPath)>,
    next: usize,
}

/// Runs the moves one after the other.
pub struct AssignMoves {
    moves: Vec<(FsPath, FsPath)>,
    next: usize,
}

impl AssignSources {
    #[verifier::type_invariant]
    spec fn valid(self) -> bool {
        self.next < self.moves@.len()
    }

    /// The moves, all of whose sources are checked.
    pub closed spec fn moves(self) -> Seq<(Seq<PartView>, Seq<PartView>)> {
        moves_view(self.moves@)
    }

    /// The move whose source is checked now.
    pub closed spec fn next(self) -> int {
        self.next as int
    }
}

impl AssignMoves {
    #[verifier::type_invariant]
    spec fn valid(self) -> bool {
        self.next < self.moves@.len()
    }

    /// The moves, run in order.
    pub closed spec fn moves(self) -> Seq<(Seq<PartView>, Seq<PartView>)> {
        moves_view(self.moves@)
    }

    /// The move that runs now.
    pub closed spec fn next(self) -> int {
        self.next as int
    }
}

/// Answers an assignment request: resolves the cleaned photoset path, plans
/// the moves and checks that the photoset exists.
pub fn assign_photoset(photoset: &FsPath, serve: &Option<FsPath>, form: PhotoSetPutForm) -> (r: AssignStep)
    ensures
        match photoset_api_path_spec(photoset@, opt_path(*serve)) {
            Ok(p) => r matches AssignStep::CheckPhotoset(q, k) && q@ == p && moves_view(k.moves@)
                == planned_moves(below(opt_path(*serve)->Some_0, PHOTO_DIR@), p, form.additions@, form.removals@),
            Err(e) => r matches AssignStep::Done(Err(x)) && x == e,
        },
{
    let photoset_path = match resolve_photoset_path(photoset, serve) {
        Ok(p) => p,
        Err(e) => return AssignStep::Done(Err(e)),
    };
    let root = match serve {
        Some(root) => root,
        None => return AssignStep::Done(Err(ApiStatus::InternalServerError)),
    };
    let photos_path = dir_below(root, PHOTO_DIR);
    let moves = plan_moves(&photos_path, &photoset_path, &form);
    AssignStep::CheckPhotoset(photoset_path, AssignChecked { moves })
}

/// The step that checks the source of move `i`, or, when every source has
/// been checked, runs the first move.
fn check_sources_from(moves: Vec<(FsPath, FsPath)>, i: usize) -> (r: AssignStep)
    requires
        i <= moves@.len(),
    ensures
        i < moves@.len() ==> (r matches AssignStep::CheckSource(p, k) && p@ == moves_view(moves@)[i as int].0
            && k.moves() == moves_view(moves@) && k.next() == i),
        i == moves@.len() ==> run_moves_from_spec(r, moves_view(moves@), 0),
{
    if i < moves.len() {
        let p = moves[i].0.copy();
        AssignStep::CheckSource(p, AssignSources { moves, next: i })
    } else {
        run_moves_from(moves, 0)
    }
}

/// What running the moves from move `i` on starts with: move `i`, or, when
/// none is left, the answer `200 OK`.
pub open spec fn run_moves_from_spec(r: AssignStep, moves: Seq<(Seq<PartView>, Seq<PartView>)>, i: int) -> bool {
    if i < moves.len() {
        r matches AssignStep::Move(FsOp::Rename(a, b), k) && a@ == moves[i].0 && b@ == moves[i].1
            && k.moves() == moves && k.next() == i
    } else {
        r matches AssignStep::Done(Ok(x)) && x == ApiStatus::Success
    }
}

fn run_moves_from(moves: Vec<(FsPath, FsPath)>, i: usize) -> (r: AssignStep)
    requires
        i <= moves@.len(),
    ensures
        run_moves_from_spec(r, moves_view(moves@), i as int),
{
    if i < moves.len() {
        let a = moves[i].0.copy();
        let b = moves[i].1.copy();
        AssignStep::Move(FsOp::Rename(a, b), AssignMoves { moves, next: i })
    } else {
        AssignStep::Done(Ok(ApiStatus::Success))
    }
}

impl AssignChecked {
    /// A missing photoset is not found; otherwise the sources are checked.
    pub fn resume(self, exists: bool) -> (r: AssignStep)
        ensures
            !exists ==> (r matches AssignStep::Done(Err(x)) && x == ApiStatus::NotFound),
            exists && moves_view(self.moves@).len() > 0 ==> (r matches AssignStep::CheckSource(p, k)
                && p@ == moves_view(self.moves@)[0].0 && k.moves() == moves_view(self.moves@) && k.next() == 0),
            exists && moves_view(self.moves@).len() == 0 ==> (r matches AssignStep::Done(Ok(x)) && x
                == ApiStatus::Success),
    {
        if !exists {
            return AssignStep::Done(Err(ApiStatus::NotFound));
        }
        check_sources_from(self.moves, 0)
    }
}

impl AssignSources {
    /// A missing source stops the request before anything moves; otherwise
    /// the next source is checked, and once all are there the moves run.
    pub fn resume(self, exists: bool) -> (r: AssignStep)
        ensures
            !exists ==> (r matches AssignStep::Done(Err(x)) && x == ApiStatus::UnprocessableEntity),
            exists && self.next() + 1 < self.moves().len() ==> (r matches AssignStep::CheckSource(p, k)
                && p@ == self.moves()[self.next() + 1].0 && k.moves() == self.moves() && k.next()
                == self.next() + 1),
            exists && self.next() + 1 == self.moves().len() ==> run_moves_from_spec(r, self.moves(), 0),
    {
        proof {
            use_type_invariant(&self);
        }
        if !exists {
            return AssignStep::Done(Err(ApiStatus::UnprocessableEntity));
        }
        let count = self.moves.len();
        assert(self.next < count);
        check_sources_from(self.moves, self.next + 1)
    }
}

impl AssignMoves {
    /// A failed move is a server error (the earlier moves stay done);
    /// otherwise the next move runs, and after the last the answer is
    /// `200 OK`.
    pub fn resume(self, res: Result<(), FsErrorKind>) -> (r: AssignStep)
        ensures
            res is Err ==> (r matches AssignStep::Done(Err(x)) && x == ApiStatus::InternalServerError),
            res is Ok ==> run_moves_from_spec(r, self.moves(), self.next() + 1),
    {
        proof {
            use_type_invariant(&self);
        }
        match res {
            Ok(()) => {
                let count = self.moves.len();
                assert(self.next < count);
                run_moves_from(self.moves, self.next + 1)
            },
            Err(_) => AssignStep::Done(Err(ApiStatus::InternalServerError)),
        }
    }
}

// ---------------------------------------------------------------------------
// DELETE: removing an empty photoset
// ---------------------------------------------------------------------------

/// A step of a removal request.
pub enum DeleteStep {
    Done(Result<ApiStatus, ApiStatus>),
    /// Run the operation (removing the directory) and answer its outcome.
    Run(FsOp, DeleteRemoved),
}

/// Waits for the directory to be removed.
pub struct DeleteRemoved;

/// Answers a removal request: resolves the cleaned path and removes the
/// directory, which must be empty.
pub fn delete_photoset(photoset: &FsPath, serve: &Option<FsPath>) -> (r: DeleteStep)
    ensures
        match photoset_api_path_spec(photoset@, opt_path(*serve)) {
            Ok(p) => r matches DeleteStep::Run(FsOp::RemoveDir(q), _) && q@ == p,
            Err(e) => r matches DeleteStep::Done(Err(x)) && x == e,
        },
{
    match resolve_photoset_path(photoset, serve) {
        Ok(p) => DeleteStep::Run(FsOp::RemoveDir(p), DeleteRemoved),
        Err(e) => DeleteStep::Done(Err(e)),
    }
}

impl DeleteRemoved {
    /// A removal answers `204 No Content`; failures map by kind.
    pub fn resume(self, res: Result<(), FsErrorKind>) -> (r: DeleteStep)
        ensures
            res is Ok ==> (r matches DeleteStep::Done(Ok(x)) && x == ApiStatus::NoContent),
            res matches Err(k) ==> (r matches DeleteStep::Done(Err(x)) && x == remove_dir_error_spec(k)),
    {
        match res {
            Ok(()) => DeleteStep::Done(Ok(ApiStatus::NoContent)),
            Err(k) => DeleteStep::Done(Err(remove_dir_error(k))),
        }
    }
}

/// An assignment moves each addition, under its own name, from the photo
/// directory into the photoset, and then each removal from the photoset back
/// to the photo directory, one move per name and nothing else.
pub proof fn lemma_assignment_moves_between_directories(
    photos: Seq<PartView>,
    set: Seq<PartView>,
    additions: Seq<String>,
    removals: Seq<String>,
)
    ensures
        planned_moves(photos, set, additions, removals).len() == additions.len() + removals.len(),
        forall|i: int|
            0 <= i < additions.len() ==> #[trigger] planned_moves(photos, set, additions, removals)[i]
                == (join_spec(photos, components_of(additions[i]@)), join_spec(
                set,
                components_of(additions[i]@),
            )),
        forall|j: int|
            0 <= j < removals.len() ==> #[trigger] planned_moves(photos, set, additions, removals)[
            additions.len() + j] == (join_spec(set, components_of(removals[j]@)), join_spec(
                photos,
                components_of(removals[j]@),
            )),
{
}

/// A plain file name added to a photoset ends inside it, directly below the
/// photoset directory, and comes from directly below the photo directory;
/// a removal goes the other way.
pub proof fn lemma_plain_names_move_directly_between_directories(
    photos: Seq<PartView>,
    set: Seq<PartView>,
    additions: Seq<String>,
    removals: Seq<String>,
)
    requires
        photos.len() > 0,
        set.len() > 0,
    ensures
        forall|i: int|
            0 <= i < additions.len() && is_plain_name(additions[i]@) ==> {
                let m = #[trigger] planned_moves(photos, set, additions, removals)[i];
                &&& m.0 == photos.push(PartView::Normal(additions[i]@))
                &&& m.1 == set.push(PartView::Normal(additions[i]@))
            },
        forall|j: int|
            0 <= j < removals.len() && is_plain_name(removals[j]@) ==> {
                let m = #[trigger] planned_moves(photos, set, additions, removals)[additions.len()
                    + j];
                &&& m.0 == set.push(PartView::Normal(removals[j]@))
                &&& m.1 == photos.push(PartView::Normal(removals[j]@))
            },
{
    assert forall|i: int| 0 <= i < additions.len() && is_plain_name(additions[i]@) implies {
        let m = #[trigger] planned_moves(photos, set, additions, removals)[i];
        &&& m.0 == photos.push(PartView::Normal(additions[i]@))
        &&& m.1 == set.push(PartView::Normal(additions[i]@))
    } by {
        lemma_plain_name_components(additions[i]@);
        assert(photos + seq![PartView::Normal(additions[i]@)] =~= photos.push(PartView::Normal(additions[i]@)));
        assert(set + seq![PartView::Normal(additions[i]@)] =~= set.push(PartView::Normal(additions[i]@)));
    }
    assert forall|j: int| 0 <= j < removals.len() && is_plain_name(removals[j]@) implies {
        let m = #[trigger] planned_moves(photos, set, additions, removals)[additions.len() + j];
        &&& m.0 == set.push(PartView::Normal(removals[j]@))
        &&& m.1 == photos.push(PartView::Normal(removals[j]@))
    } by {
        lemma_plain_name_components(removals[j]@);
        assert(photos + seq![PartView::Normal(removals[j]@)] =~= photos.push(PartView::Normal(removals[j]@)));
        assert(set + seq![PartView::Normal(removals[j]@)] =~= set.push(PartView::Normal(removals[j]@)));
    }
}

} // verus!
