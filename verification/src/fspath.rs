//! File-system paths as the sequence of their components, the way
//! `std::path::Path::components` reads them on Unix.
use vstd::prelude::*;

verus! {

/// One component of a path.
#[derive(Debug)]
pub enum PathPart {
    /// The root `/` of an absolute path.
    Root,
    /// A leading `.`.
    Current,
    /// A `..`.
    Parent,
    /// Any other name.
    Normal(String),
}

/// The mathematical value of a path component.
pub enum PartView {
    Root,
    Current,
    Parent,
    Normal(Seq<char>),
}

impl View for PathPart {
    type V = PartView;

    open spec fn view(&self) -> PartView {
        match self {
            PathPart::Root => PartView::Root,
            PathPart::Current => PartView::Current,
            PathPart::Parent => PartView::Parent,
            PathPart::Normal(s) => PartView::Normal(s@),
        }
    }
}

/// A path, held as its components (`Path::components`). A component list
/// read from a real path has a `Root` or a `Current` at its front only.
#[derive(Debug)]
pub struct FsPath {
    parts: Vec<PathPart>,
}

impl View for FsPath {
    type V = Seq<PartView>;

    closed spec fn view(&self) -> Seq<PartView> {
        self.parts@.map_values(|p: PathPart| p@)
    }
}

/// The components of `base.join(other)`: an absolute `other` replaces
/// `base`; otherwise its components follow those of `base`, where a leading
/// `.` of `other` disappears once it is no longer at the front.
pub open spec fn join_spec(base: Seq<PartView>, other: Seq<PartView>) -> Seq<PartView> {
    if other.len() > 0 && other[0] is Root {
        other
    } else if base.len() == 0 {
        other
    } else if other.len() > 0 && other[0] is Current {
        base + other.drop_first()
    } else {
        base + other
    }
}

/// `p` begins with the components of `base` (`Path::starts_with`).
pub open spec fn starts_with_spec(p: Seq<PartView>, base: Seq<PartView>) -> bool {
    base.len() <= p.len() && p.take(base.len() as int) == base
}

/// `Path::parent`: the path without its last component, unless it is empty
/// or ends in the root.
pub open spec fn parent_spec(p: Seq<PartView>) -> Option<Seq<PartView>> {
    if p.len() == 0 || p.last() is Root {
        None
    } else {
        Some(p.drop_last())
    }
}

/// `Path::file_name`: the last component, when it is a name.
pub open spec fn file_name_spec(p: Seq<PartView>) -> Option<Seq<char>> {
    if p.len() > 0 && p.last() is Normal {
        Some(p.last()->Normal_0)
    } else {
        None
    }
}

/// The position of the last `.` in `s` (`-1` when it has none).
pub open spec fn last_dot(s: Seq<char>) -> int
    decreases s.len(),
{
    if s.len() == 0 {
        -1
    } else if s.last() == '.' {
        s.len() - 1
    } else {
        last_dot(s.drop_last())
    }
}

/// `Path::extension` of a file name: what follows its last `.`, unless it
/// has none or its only `.` opens the name.
pub open spec fn name_extension(name: Seq<char>) -> Option<Seq<char>> {
    let k = last_dot(name);
    if k <= 0 {
        None
    } else {
        Some(name.skip(k + 1))
    }
}

/// `Path::extension`.
pub open spec fn extension_spec(p: Seq<PartView>) -> Option<Seq<char>> {
    match file_name_spec(p) {
        Some(name) => name_extension(name),
        None => None,
    }
}

/// The path has a `..` or a root component: it may leave the directory it
/// is joined to.
pub open spec fn escapes_spec(p: Seq<PartView>) -> bool {
    exists|i: int| 0 <= i < p.len() && (p[i] is Parent || p[i] is Root)
}

/// The text of a component as `Path::iter` hands it out.
pub open spec fn part_text(p: PartView) -> Seq<char> {
    match p {
        PartView::Root => seq!['/'],
        PartView::Current => seq!['.'],
        PartView::Parent => seq!['.', '.'],
        PartView::Normal(s) => s,
    }
}

/// A component list as `Path::components` yields it: a root or a leading
/// `.` only at the front, and names that are not empty, hold no `/` and are
/// neither `.` nor `..`.
pub open spec fn well_formed(s: Seq<PartView>) -> bool {
    forall|i: int| 0 <= i < s.len() ==> {
        &&& (i > 0 ==> !(#[trigger] s[i] is Root) && !(s[i] is Current))
        &&& (s[i] matches PartView::Normal(n) ==> n.len() > 0 && !n.contains('/') && n != seq!['.']
            && n != seq!['.', '.'])
    }
}

/// The position of the first `/` in `s`, or `s.len()` when it has none.
pub open spec fn first_slash(s: Seq<char>) -> int
    decreases s.len(),
{
    if s.len() == 0 {
        0
    } else if s[0] == '/' {
        0
    } else {
        1 + first_slash(s.drop_first())
    }
}

/// The component that a piece of text between separators stands for:
/// nothing for an empty piece or a `.`, otherwise a `..` or a name.
pub open spec fn piece_part(p: Seq<char>) -> Seq<PartView> {
    if p.len() == 0 || p == seq!['.'] {
        Seq::<PartView>::empty()
    } else if p == seq!['.', '.'] {
        seq![PartView::Parent]
    } else {
        seq![PartView::Normal(p)]
    }
}

/// The components of the pieces of `s` between `/` separators.
pub open spec fn piece_parts(s: Seq<char>) -> Seq<PartView>
    decreases s.len(),
{
    let k = first_slash(s);
    if 0 <= k < s.len() {
        piece_part(s.take(k)) + piece_parts(s.skip(k + 1))
    } else {
        piece_part(s)
    }
}

/// The components that `Path::new(s).components()` yields on Unix: a root
/// for a leading `/`, a `.` when the path opens with a `.` piece, then one
/// component per piece, where empty pieces (repeated or trailing
/// separators) and `.` pieces are left out.
pub open spec fn components_of(s: Seq<char>) -> Seq<PartView> {
    if s.len() > 0 && s[0] == '/' {
        seq![PartView::Root] + piece_parts(s)
    } else if s.len() > 0 && s[0] == '.' && (s.len() == 1 || s[1] == '/') {
        seq![PartView::Current] + piece_parts(s)
    } else {
        piece_parts(s)
    }
}

proof fn lemma_first_slash_at(s: Seq<char>, i: int)
    requires
        0 <= i <= s.len(),
        forall|j: int| 0 <= j < i ==> s[j] != '/',
        i == s.len() || s[i] == '/',
    ensures
        first_slash(s) == i,
    decreases i,
{
    if i > 0 {
        let t = s.drop_first();
        assert forall|j: int| 0 <= j < i - 1 implies t[j] != '/' by {
            assert(t[j] == s[j + 1]);
        }
        lemma_first_slash_at(t, i - 1);
    }
}

proof fn lemma_first_slash_bounds(s: Seq<char>)
    ensures
        0 <= first_slash(s) <= s.len(),
        forall|j: int| 0 <= j < first_slash(s) ==> s[j] != '/',
        first_slash(s) < s.len() ==> s[first_slash(s)] == '/',
    decreases s.len(),
{
    if s.len() > 0 && s[0] != '/' {
        let t = s.drop_first();
        lemma_first_slash_bounds(t);
        assert forall|j: int| 0 <= j < first_slash(s) implies s[j] != '/' by {
            if j > 0 {
                assert(s[j] == t[j - 1]);
            }
        }
    }
}

proof fn lemma_piece_parts_well_formed(s: Seq<char>)
    ensures
        forall|i: int| 0 <= i < piece_parts(s).len() ==> (#[trigger] piece_parts(s)[i] is Parent
            || (piece_parts(s)[i] matches PartView::Normal(n) && n.len() > 0 && !n.contains('/')
            && n != seq!['.'] && n != seq!['.', '.'])),
    decreases s.len(),
{
    lemma_first_slash_bounds(s);
    let k = first_slash(s);
    let head = if 0 <= k < s.len() { s.take(k) } else { s };
    assert(!head.contains('/')) by {
        if head.contains('/') {
            let j = choose|j: int| 0 <= j < head.len() && head[j] == '/';
            assert(s[j] == '/');
        }
    }
    if 0 <= k < s.len() {
        lemma_piece_parts_well_formed(s.skip(k + 1));
        let a = piece_part(s.take(k));
        let b = piece_parts(s.skip(k + 1));
        assert forall|i: int| 0 <= i < (a + b).len() implies (#[trigger] (a + b)[i] is Parent || ((a
            + b)[i] matches PartView::Normal(n) && n.len() > 0 && !n.contains('/') && n != seq!['.']
            && n != seq!['.', '.'])) by {
            if i >= a.len() {
                assert((a + b)[i] == b[i - a.len()]);
            }
        }
    }
}

/// The components read from any text are well formed.
pub proof fn lemma_components_well_formed(s: Seq<char>)
    ensures
        well_formed(components_of(s)),
{
    lemma_piece_parts_well_formed(s);
    let pp = piece_parts(s);
    let c = components_of(s);
    if s.len() > 0 && (s[0] == '/' || (s[0] == '.' && (s.len() == 1 || s[1] == '/'))) {
        assert forall|i: int| 0 <= i < c.len() implies {
            &&& (i > 0 ==> !(#[trigger] c[i] is Root) && !(c[i] is Current))
            &&& (c[i] matches PartView::Normal(n) ==> n.len() > 0 && !n.contains('/') && n != seq!['.']
                && n != seq!['.', '.'])
        } by {
            if i > 0 {
                assert(c[i] == pp[i - 1]);
            }
        }
    } else {
        assert(c == pp);
        assert forall|i: int| 0 <= i < c.len() implies {
            &&& (i > 0 ==> !(#[trigger] c[i] is Root) && !(c[i] is Current))
            &&& (c[i] matches PartView::Normal(n) ==> n.len() > 0 && !n.contains('/') && n != seq!['.']
                && n != seq!['.', '.'])
        } by {
            assert(c[i] == pp[i]);
        }
    }
}

/// Joining and taking the parent keep a component list well formed.
pub proof fn lemma_join_parent_well_formed(a: Seq<PartView>, b: Seq<PartView>)
    requires
        well_formed(a),
        well_formed(b),
    ensures
        well_formed(join_spec(a, b)),
        parent_spec(a) matches Some(p) ==> well_formed(p),
{
    let j = join_spec(a, b);
    if !(b.len() > 0 && b[0] is Root) && a.len() > 0 {
        let rest = if b.len() > 0 && b[0] is Current { b.drop_first() } else { b };
        assert(j == a + rest);
        assert forall|i: int| 0 <= i < j.len() implies {
            &&& (i > 0 ==> !(#[trigger] j[i] is Root) && !(j[i] is Current))
            &&& (j[i] matches PartView::Normal(n) ==> n.len() > 0 && !n.contains('/') && n != seq!['.']
                && n != seq!['.', '.'])
        } by {
            if i < a.len() {
                assert(j[i] == a[i]);
            } else if b.len() > 0 && b[0] is Current {
                assert(j[i] == b[i - a.len() + 1]);
            } else {
                assert(j[i] == b[i - a.len()]);
                if i - a.len() == 0 {
                    assert(!(b[0] is Root));
                }
            }
        }
    }
    if let Some(p) = parent_spec(a) {
        assert forall|i: int| 0 <= i < p.len() implies {
            &&& (i > 0 ==> !(#[trigger] p[i] is Root) && !(p[i] is Current))
            &&& (p[i] matches PartView::Normal(n) ==> n.len() > 0 && !n.contains('/') && n != seq!['.']
                && n != seq!['.', '.'])
        } by {
            assert(p[i] == a[i]);
        }
    }
}

/// A file name that names one entry of a directory: not empty, without `/`,
/// and neither `.` nor `..`.
pub open spec fn is_plain_name(s: Seq<char>) -> bool {
    &&& s.len() > 0
    &&& !s.contains('/')
    &&& s != seq!['.']
    &&& s != seq!['.', '.']
}

/// A text without `/` that is neither `.` nor `..` names at most one
/// component: none when empty, otherwise itself as a name.
pub proof fn lemma_plain_name_components(s: Seq<char>)
    requires
        !s.contains('/'),
        s != seq!['.'],
        s != seq!['.', '.'],
    ensures
        components_of(s) == (if s.len() == 0 {
            Seq::<PartView>::empty()
        } else {
            seq![PartView::Normal(s)]
        }),
{
    assert forall|j: int| 0 <= j < s.len() implies s[j] != '/' by {
        if s[j] == '/' {
            assert(s.contains('/'));
        }
    }
    lemma_first_slash_at(s, s.len() as int);
    if s.len() == 1 && s[0] == '.' {
        assert(s =~= seq!['.']);
    }
}

impl PathPart {
    /// A copy of this component.
    pub fn copy(&self) -> (r: PathPart)
        ensures
            r@ == self@,
    {
        match self {
            PathPart::Root => PathPart::Root,
            PathPart::Current => PathPart::Current,
            PathPart::Parent => PathPart::Parent,
            PathPart::Normal(s) => PathPart::Normal(s.clone()),
        }
    }

    /// Whether two components are the same.
    pub fn same(&self, other: &PathPart) -> (r: bool)
        ensures
            r == (self@ == other@),
    {
        match (self, other) {
            (PathPart::Root, PathPart::Root) => true,
            (PathPart::Current, PathPart::Current) => true,
            (PathPart::Parent, PathPart::Parent) => true,
            (PathPart::Normal(a), PathPart::Normal(b)) => *a == *b,
            _ => false,
        }
    }

    /// The text of this component as `Path::iter` hands it out.
    pub fn text(&self) -> (s: String)
        ensures
            s@ == part_text(self@),
    {
        proof {
            reveal_strlit("/");
            reveal_strlit(".");
            reveal_strlit("..");
        }
        match self {
            PathPart::Root => crate::text::string_of("/"),
            PathPart::Current => crate::text::string_of("."),
            PathPart::Parent => crate::text::string_of(".."),
            PathPart::Normal(s) => s.clone(),
        }
    }
}

impl FsPath {
    /// The path with these components.
    pub fn from_parts(parts: Vec<PathPart>) -> (p: FsPath)
        ensures
            p@ == parts@.map_values(|q: PathPart| q@),
    {
        FsPath { parts }
    }

    /// The path that the text `s` names (`Path::new(s)`), read into its
    /// components.
    pub fn parse(s: &str) -> (p: FsPath)
        ensures
            p@ == components_of(s@),
            well_formed(p@),
    {
        proof {
            lemma_components_well_formed(s@);
        }
        let v = crate::text::chars_of(s);
        let n = v.len();
        let mut out = FsPath::empty();
        if n > 0 && v[0] == '/' {
            out.push_part(PathPart::Root);
        } else if n > 0 && v[0] == '.' && (n == 1 || v[1] == '/') {
            out.push_part(PathPart::Current);
        }
        let ghost lead = out@;
        let mut start: usize = 0;
        let mut i: usize = 0;
        assert(v@.skip(0) =~= v@);
        while i < n
            invariant
                start <= i <= n == v@.len(),
                v@ == s@,
                forall|j: int| start <= j < i ==> v@[j] != '/',
                out@ + piece_parts(v@.skip(start as int)) == lead + piece_parts(v@),
            decreases n - i,
        {
            if v[i] == '/' {
                let ghost rest = v@.skip(start as int);
                proof {
                    assert forall|j: int| 0 <= j < i - start implies rest[j] != '/' by {
                        assert(rest[j] == v@[j + start]);
                    }
                    lemma_first_slash_at(rest, i - start);
                    assert(rest.take(i - start) =~= v@.subrange(start as int, i as int));
                    assert(rest.skip(i - start + 1) =~= v@.skip(i + 1));
                }
                let ghost before = out@;
                self::push_piece(&mut out, &v, start, i);
                assert(out@ + piece_parts(v@.skip(i + 1)) =~= before + piece_parts(rest));
                start = i + 1;
            }
            i = i + 1;
        }
        let ghost rest = v@.skip(start as int);
        proof {
            assert forall|j: int| 0 <= j < n - start implies rest[j] != '/' by {
                assert(rest[j] == v@[j + start]);
            }
            lemma_first_slash_at(rest, n - start);
            assert(rest =~= v@.subrange(start as int, n as int));
        }
        self::push_piece(&mut out, &v, start, n);
        proof {
            if n > 0 && v@[0] == '/' {
                assert(components_of(s@) == seq![PartView::Root] + piece_parts(s@));
            }
        }
        out
    }

    /// The empty path.
    pub fn empty() -> (p: FsPath)
        ensures
            p@ == Seq::<PartView>::empty(),
    {
        let p = FsPath { parts: Vec::new() };
        assert(p@ =~= Seq::<PartView>::empty());
        p
    }

    /// The components of the path.
    pub fn parts(&self) -> (r: &Vec<PathPart>)
        ensures
            r@.map_values(|q: PathPart| q@) == self@,
    {
        &self.parts
    }

    /// The number of components.
    pub fn len(&self) -> (n: usize)
        ensures
            n == self@.len(),
    {
        self.parts.len()
    }

    /// A copy of the path.
    pub fn copy(&self) -> (r: FsPath)
        ensures
            r@ == self@,
    {
        let mut v: Vec<PathPart> = Vec::new();
        let n = self.parts.len();
        for i in 0..n
            invariant
                n == self.parts@.len(),
                v@.len() == i,
                forall|j: int| 0 <= j < i ==> #[trigger] v@[j]@ == self.parts@[j]@,
        {
            v.push(self.parts[i].copy());
        }
        let r = FsPath { parts: v };
        assert(r@ =~= self@);
        r
    }

    /// Adds a component at the end.
    pub fn push_part(&mut self, part: PathPart)
        ensures
            final(self)@ == old(self)@.push(part@),
    {
        self.parts.push(part);
        assert(self@ =~= old(self)@.push(part@));
    }

    /// `Path::join`.
    pub fn join(&self, other: &FsPath) -> (r: FsPath)
        ensures
            r@ == join_spec(self@, other@),
            well_formed(self@) && well_formed(other@) ==> well_formed(r@),
    {
        proof {
            if well_formed(self@) && well_formed(other@) {
                lemma_join_parent_well_formed(self@, other@);
            }
        }
        let m = other.parts.len();
        if m > 0 {
            if let PathPart::Root = &other.parts[0] {
                return other.copy();
            }
        }
        if self.parts.len() == 0 {
            return other.copy();
        }
        let mut r = self.copy();
        let mut i: usize = 0;
        if m > 0 {
            if let PathPart::Current = &other.parts[0] {
                i = 1;
            }
        }
        let skip = i;
        let ghost base = self@;
        while i < m
            invariant
                skip <= i <= m == other@.len(),
                skip == 0 || skip == 1,
                r@ == base + other@.subrange(skip as int, i as int),
            decreases m - i,
        {
            r.push_part(other.parts[i].copy());
            assert(other@[i as int] == other.parts@[i as int]@);
            assert(base + other@.subrange(skip as int, i + 1) =~= (base + other@.subrange(
                skip as int,
                i as int,
            )).push(other@[i as int]));
            i = i + 1;
        }
        assert(other@.subrange(skip as int, m as int) =~= (if skip == 1 {
            other@.drop_first()
        } else {
            other@
        }));
        proof {
            if m > 0 {
                assert(other@[0] == other.parts@[0]@);
            }
        }
        r
    }

    /// `Path::starts_with`: the path begins with the components of `base`.
    pub fn starts_with(&self, base: &FsPath) -> (r: bool)
        ensures
            r == starts_with_spec(self@, base@),
    {
        let n = base.parts.len();
        if n > self.parts.len() {
            return false;
        }
        for i in 0..n
            invariant
                n == base@.len() <= self@.len(),
                forall|j: int| 0 <= j < i ==> self@[j] == base@[j],
        {
            if !self.parts[i].same(&base.parts[i]) {
                assert(self@.take(n as int)[i as int] != base@[i as int]);
                return false;
            }
        }
        assert(self@.take(n as int) =~= base@);
        true
    }

    /// Path equality (`==` on `Path`, which compares components).
    pub fn same(&self, other: &FsPath) -> (r: bool)
        ensures
            r == (self@ == other@),
    {
        if self.parts.len() != other.parts.len() {
            return false;
        }
        let r = self.starts_with(other);
        assert(self@.take(other@.len() as int) =~= self@);
        r
    }

    /// `Path::parent`.
    pub fn parent(&self) -> (r: Option<FsPath>)
        ensures
            r matches Some(q) ==> parent_spec(self@) == Some(q@),
            r is None ==> parent_spec(self@) is None,
    {
        let n = self.parts.len();
        if n == 0 {
            return None;
        }
        if let PathPart::Root = &self.parts[n - 1] {
            return None;
        }
        let mut v: Vec<PathPart> = Vec::new();
        for i in 0..n - 1
            invariant
                n == self.parts@.len() > 0,
                v@.len() == i,
                forall|j: int| 0 <= j < i ==> #[trigger] v@[j]@ == self.parts@[j]@,
        {
            v.push(self.parts[i].copy());
        }
        let q = FsPath { parts: v };
        assert(q@ =~= self@.drop_last());
        Some(q)
    }

    /// `Path::file_name`.
    pub fn file_name(&self) -> (r: Option<String>)
        ensures
            r matches Some(s) ==> file_name_spec(self@) == Some(s@),
            r is None ==> file_name_spec(self@) is None,
    {
        let n = self.parts.len();
        if n == 0 {
            return None;
        }
        match &self.parts[n - 1] {
            PathPart::Normal(s) => Some(s.clone()),
            _ => None,
        }
    }

    /// `Path::extension`.
    pub fn extension(&self) -> (r: Option<String>)
        ensures
            r matches Some(s) ==> extension_spec(self@) == Some(s@),
            r is None ==> extension_spec(self@) is None,
    {
        match self.file_name() {
            Some(name) => {
                let v = crate::text::chars_of(name.as_str());
                let mut k = v.len();
                assert(v@.take(k as int) =~= v@);
                while k > 0 && v[k - 1] != '.'
                    invariant
                        k <= v@.len(),
                        last_dot(v@) == last_dot(v@.take(k as int)),
                    decreases k,
                {
                    assert(v@.take(k as int).drop_last() =~= v@.take(k - 1));
                    k = k - 1;
                }
                proof {
                    if k == 0 {
                        assert(v@.take(0) =~= Seq::<char>::empty());
                    } else {
                        assert(v@.take(k as int).last() == '.');
                    }
                    assert(v@.take(v@.len() as int) =~= v@);
                }
                if k <= 1 {
                    None
                } else {
                    let mut e: Vec<char> = Vec::new();
                    let mut j = k;
                    while j < v.len()
                        invariant
                            k <= j <= v@.len(),
                            e@ == v@.subrange(k as int, j as int),
                        decreases v@.len() - j,
                    {
                        e.push(v[j]);
                        j = j + 1;
                    }
                    assert(e@ =~= v@.skip(k as int));
                    Some(crate::text::string_from_chars(e.as_slice()))
                }
            },
            None => None,
        }
    }

    /// The path has a `..` or a root component.
    pub fn escapes(&self) -> (r: bool)
        ensures
            r == escapes_spec(self@),
    {
        let n = self.parts.len();
        for i in 0..n
            invariant
                n == self@.len(),
                forall|j: int| 0 <= j < i ==> !(self@[j] is Parent || self@[j] is Root),
        {
            match &self.parts[i] {
                PathPart::Parent => {
                    assert(self@[i as int] is Parent);
                    return true;
                },
                PathPart::Root => {
                    assert(self@[i as int] is Root);
                    return true;
                },
                _ => {},
            }
        }
        false
    }

    /// `Path::is_absolute` on Unix: the path starts at the root.
    pub fn is_absolute(&self) -> (r: bool)
        ensures
            r == (self@.len() > 0 && self@[0] is Root),
    {
        if self.parts.len() == 0 {
            return false;
        }
        match &self.parts[0] {
            PathPart::Root => true,
            _ => false,
        }
    }
}

/// Adds the component (if any) that the text `v[lo..hi]` stands for.
fn push_piece(out: &mut FsPath, v: &Vec<char>, lo: usize, hi: usize)
    requires
        lo <= hi <= v@.len(),
    ensures
        final(out)@ == old(out)@ + piece_part(v@.subrange(lo as int, hi as int)),
{
    let ghost p = v@.subrange(lo as int, hi as int);
    let len = hi - lo;
    if len == 0 || (len == 1 && v[lo] == '.') {
        proof {
            if len == 1 {
                assert(p =~= seq!['.']);
            }
        }
        assert(old(out)@ + Seq::<PartView>::empty() =~= old(out)@);
        return;
    }
    if len == 2 && v[lo] == '.' && v[lo + 1] == '.' {
        assert(p =~= seq!['.', '.']);
        out.push_part(PathPart::Parent);
        assert(old(out)@.push(PartView::Parent) =~= old(out)@ + seq![PartView::Parent]);
        return;
    }
    proof {
        if p == seq!['.'] {
            assert(p[0] == v@[lo as int]);
        }
        if p == seq!['.', '.'] {
            assert(p[0] == v@[lo as int]);
            assert(p[1] == v@[lo + 1]);
        }
    }
    let mut w: Vec<char> = Vec::new();
    let mut j = lo;
    while j < hi
        invariant
            lo <= j <= hi <= v@.len(),
            w@ == v@.subrange(lo as int, j as int),
        decreases hi - j,
    {
        w.push(v[j]);
        j = j + 1;
    }
    let name = crate::text::string_from_chars(w.as_slice());
    out.push_part(PathPart::Normal(name));
    assert(old(out)@.push(PartView::Normal(p)) =~= old(out)@ + seq![PartView::Normal(p)]);
}

} // verus!
