//! Directory listings: entries are shown directories first, then by name.
use vstd::prelude::*;
use vstd::relations::{sorted_by, total_ordering};
use crate::text::chars_of;

verus! {

broadcast use vstd::seq_lib::group_to_multiset_ensures;

/// One entry of a directory listing.
#[derive(Debug)]
pub struct DirectoryEntry {
    pub name: String,
    pub is_dir: bool,
}

/// The entries of a directory, in the order in which they are shown.
#[derive(Debug)]
pub struct DirectoryListing {
    pub entries: Vec<DirectoryEntry>,
}

impl View for DirectoryEntry {
    type V = (Seq<char>, bool);

    open spec fn view(&self) -> (Seq<char>, bool) {
        (self.name@, self.is_dir)
    }
}

/// The values of a sequence of entries.
pub open spec fn entries_view(v: Seq<DirectoryEntry>) -> Seq<(Seq<char>, bool)> {
    v.map_values(|e: DirectoryEntry| e@)
}

/// `a` comes strictly before `b` in the order of `String`: character by
/// character, by code point (for UTF-8 this is the order of the bytes), a
/// proper prefix first.
pub open spec fn name_lt(a: Seq<char>, b: Seq<char>) -> bool
    decreases a.len(),
{
    if a.len() == 0 {
        b.len() > 0
    } else if b.len() == 0 {
        false
    } else if a[0] == b[0] {
        name_lt(a.drop_first(), b.drop_first())
    } else {
        a[0] < b[0]
    }
}

/// The order in which entries are listed: by the key `(!is_dir, name)`, so
/// directories come before files, and names ascend within each group.
pub open spec fn entry_le(x: (Seq<char>, bool), y: (Seq<char>, bool)) -> bool {
    (x.1 && !y.1) || (x.1 == y.1 && !name_lt(y.0, x.0))
}

proof fn lemma_name_lt_irreflexive(a: Seq<char>)
    ensures
        !name_lt(a, a),
    decreases a.len(),
{
    if a.len() > 0 {
        lemma_name_lt_irreflexive(a.drop_first());
    }
}

proof fn lemma_name_lt_total(a: Seq<char>, b: Seq<char>)
    ensures
        a == b || name_lt(a, b) || name_lt(b, a),
    decreases a.len(),
{
    if a.len() > 0 && b.len() > 0 && a[0] == b[0] {
        lemma_name_lt_total(a.drop_first(), b.drop_first());
        if a.drop_first() == b.drop_first() {
            assert(a =~= seq![a[0]] + a.drop_first());
            assert(b =~= seq![b[0]] + b.drop_first());
        }
    } else if a.len() == 0 && b.len() == 0 {
        assert(a =~= b);
    }
}

proof fn lemma_name_lt_asymmetric(a: Seq<char>, b: Seq<char>)
    ensures
        !(name_lt(a, b) && name_lt(b, a)),
    decreases a.len(),
{
    if a.len() > 0 && b.len() > 0 && a[0] == b[0] {
        lemma_name_lt_asymmetric(a.drop_first(), b.drop_first());
    }
}

proof fn lemma_name_lt_transitive(a: Seq<char>, b: Seq<char>, c: Seq<char>)
    requires
        name_lt(a, b),
        name_lt(b, c),
    ensures
        name_lt(a, c),
    decreases a.len(),
{
    if a.len() > 0 {
        if a[0] == b[0] && b[0] == c[0] {
            lemma_name_lt_transitive(a.drop_first(), b.drop_first(), c.drop_first());
        }
    }
}

/// The listing order is a total order on entry values.
pub proof fn lemma_entry_le_total_ordering()
    ensures
        total_ordering(|x: (Seq<char>, bool), y: (Seq<char>, bool)| entry_le(x, y)),
{
    let le = |x: (Seq<char>, bool), y: (Seq<char>, bool)| entry_le(x, y);
    assert forall|x: (Seq<char>, bool)| #[trigger] le(x, x) by {
        lemma_name_lt_irreflexive(x.0);
    }
    assert forall|x: (Seq<char>, bool), y: (Seq<char>, bool)|
        #[trigger] le(x, y) && #[trigger] le(y, x) implies x == y by {
        lemma_name_lt_total(x.0, y.0);
    }
    assert forall|x: (Seq<char>, bool), y: (Seq<char>, bool), z: (Seq<char>, bool)|
        #[trigger] le(x, y) && #[trigger] le(y, z) implies le(x, z) by {
        if x.1 == y.1 && y.1 == z.1 {
            lemma_name_lt_total(x.0, y.0);
            lemma_name_lt_total(y.0, z.0);
            lemma_name_lt_total(x.0, z.0);
            if name_lt(z.0, x.0) {
                if x.0 != y.0 && y.0 != z.0 {
                    lemma_name_lt_transitive(z.0, x.0, y.0);
                    lemma_name_lt_asymmetric(z.0, y.0);
                }
            }
        }
    }
    assert forall|x: (Seq<char>, bool), y: (Seq<char>, bool)|
        #[trigger] le(x, y) || #[trigger] le(y, x) by {
        lemma_name_lt_total(x.0, y.0);
        lemma_name_lt_asymmetric(x.0, y.0);
    }
}

proof fn lemma_name_lt_skip(a: Seq<char>, b: Seq<char>, i: int)
    requires
        0 <= i <= a.len(),
        i <= b.len(),
        forall|j: int| 0 <= j < i ==> a[j] == b[j],
    ensures
        name_lt(a, b) == name_lt(a.skip(i), b.skip(i)),
    decreases i,
{
    if i > 0 {
        let a1 = a.drop_first();
        let b1 = b.drop_first();
        assert forall|j: int| 0 <= j < i - 1 implies a1[j] == b1[j] by {
            assert(a1[j] == a[j + 1]);
            assert(b1[j] == b[j + 1]);
        }
        lemma_name_lt_skip(a1, b1, i - 1);
        assert(a1.skip(i - 1) =~= a.skip(i));
        assert(b1.skip(i - 1) =~= b.skip(i));
    } else {
        assert(a.skip(0) =~= a);
        assert(b.skip(0) =~= b);
    }
}

/// Whether the name `a` sorts strictly before `b`.
fn name_less(a: &[char], b: &[char]) -> (r: bool)
    ensures
        r == name_lt(a@, b@),
{
    let mut i: usize = 0;
    while i < a.len() && i < b.len() && a[i] == b[i]
        invariant
            i <= a@.len(),
            i <= b@.len(),
            forall|j: int| 0 <= j < i ==> a@[j] == b@[j],
        decreases a@.len() - i,
    {
        i = i + 1;
    }
    proof {
        lemma_name_lt_skip(a@, b@, i as int);
        if i < a@.len() && i < b@.len() {
            assert(a@.skip(i as int)[0] == a@[i as int]);
            assert(b@.skip(i as int)[0] == b@[i as int]);
        }
    }
    if i == a.len() {
        i < b.len()
    } else if i == b.len() {
        false
    } else {
        a[i] < b[i]
    }
}

/// Whether entry `x` may be listed before entry `y`.
fn entry_before(x: &DirectoryEntry, y: &DirectoryEntry) -> (r: bool)
    ensures
        r == entry_le(x@, y@),
{
    if x.is_dir && !y.is_dir {
        true
    } else if x.is_dir == y.is_dir {
        let xs = chars_of(x.name.as_str());
        let ys = chars_of(y.name.as_str());
        !name_less(ys.as_slice(), xs.as_slice())
    } else {
        false
    }
}

impl DirectoryEntry {
    /// A copy of the entry.
    pub fn copy(&self) -> (r: DirectoryEntry)
        ensures
            r@ == self@,
    {
        DirectoryEntry { name: self.name.clone(), is_dir: self.is_dir }
    }
}

/// Puts directory entries in listing order (`sort_by_key(|e| (!e.is_dir,
/// e.name.clone()))`): the result holds the same entries, sorted.
pub fn sort_entries(entries: &Vec<DirectoryEntry>) -> (r: Vec<DirectoryEntry>)
    ensures
        sorted_by(entries_view(r@), |x: (Seq<char>, bool), y: (Seq<char>, bool)| entry_le(x, y)),
        entries_view(r@).to_multiset() == entries_view(entries@).to_multiset(),
{
    let ghost le = |x: (Seq<char>, bool), y: (Seq<char>, bool)| entry_le(x, y);
    proof {
        lemma_entry_le_total_ordering();
    }
    let mut res: Vec<DirectoryEntry> = Vec::new();
    let n = entries.len();
    assert(entries_view(res@) =~= Seq::<(Seq<char>, bool)>::empty());
    assert(entries_view(entries@).take(0) =~= Seq::<(Seq<char>, bool)>::empty());
    for i in 0..n
        invariant
            n == entries@.len(),
            total_ordering(le),
            le == (|x: (Seq<char>, bool), y: (Seq<char>, bool)| entry_le(x, y)),
            sorted_by(entries_view(res@), le),
            entries_view(res@).to_multiset() == entries_view(entries@).take(i as int).to_multiset(),
    {
        let e = entries[i].copy();
        let ghost ev = e@;
        let ghost rv = entries_view(res@);
        let mut p: usize = 0;
        while p < res.len() && entry_before(&res[p], &e)
            invariant
                p <= res@.len(),
                rv == entries_view(res@),
                ev == e@,
                forall|k: int| 0 <= k < p ==> entry_le(#[trigger] rv[k], ev),
            decreases res@.len() - p,
        {
            p = p + 1;
        }
        proof {
            if p < rv.len() {
                assert(!entry_le(rv[p as int], ev));
                assert(le(ev, rv[p as int]) || le(rv[p as int], ev));
                assert(entry_le(ev, rv[p as int]));
                assert forall|k: int| p <= k < rv.len() implies entry_le(ev, #[trigger] rv[k]) by {
                    if k > p {
                        assert(le(rv[p as int], rv[k]));
                        assert(le(ev, rv[p as int]) && le(rv[p as int], rv[k]) ==> le(ev, rv[k]));
                    }
                }
            }
        }
        res.insert(p, e);
        proof {
            let nv = rv.insert(p as int, ev);
            assert(entries_view(res@) =~= nv);
            assert forall|a: int, b: int| 0 <= a < b < nv.len() implies #[trigger] le(
                nv[a],
                nv[b],
            ) by {
                if b < p {
                    assert(le(rv[a], rv[b]));
                } else if b == p {
                    assert(nv[b] == ev);
                    assert(nv[a] == rv[a]);
                } else if a == p {
                    assert(nv[b] == rv[b - 1]);
                } else if a < p {
                    assert(nv[a] == rv[a]);
                    assert(nv[b] == rv[b - 1]);
                    assert(le(rv[a], rv[b - 1]));
                } else {
                    assert(nv[a] == rv[a - 1]);
                    assert(nv[b] == rv[b - 1]);
                    assert(le(rv[a - 1], rv[b - 1]));
                }
            }
            vstd::seq_lib::to_multiset_insert(rv, p as int, ev);
            assert(entries_view(entries@).take(i + 1) =~= entries_view(entries@).take(
                i as int,
            ).push(ev));
            vstd::seq_lib::to_multiset_build(entries_view(entries@).take(i as int), ev);
        }
    }
    assert(entries_view(entries@).take(n as int) =~= entries_view(entries@));
    res
}

/// Sorting a listing that is already in listing order leaves it unchanged,
/// and any two sorted arrangements of the same entries are the same: the
/// listing order of a directory is fully determined by its entries.
pub proof fn lemma_listing_order_unique(x: Seq<(Seq<char>, bool)>, y: Seq<(Seq<char>, bool)>)
    requires
        sorted_by(x, |a: (Seq<char>, bool), b: (Seq<char>, bool)| entry_le(a, b)),
        sorted_by(y, |a: (Seq<char>, bool), b: (Seq<char>, bool)| entry_le(a, b)),
        x.to_multiset() == y.to_multiset(),
    ensures
        x == y,
{
    lemma_entry_le_total_ordering();
    vstd::seq_lib::lemma_sorted_unique(x, y, |a: (Seq<char>, bool), b: (Seq<char>, bool)| entry_le(a, b));
}

/// Names are ordered by the code points of their characters: at the first
/// position where two names differ, the name with the smaller character
/// comes first; when one name is a proper prefix of the other, the shorter
/// comes first; a name never comes before itself or before its own prefix.
pub proof fn lemma_name_order_is_code_point_order(a: Seq<char>, b: Seq<char>, k: int)
    requires
        0 <= k <= a.len(),
        k <= b.len(),
        forall|j: int| 0 <= j < k ==> a[j] == b[j],
    ensures
        k < a.len() && k < b.len() && a[k] != b[k] ==> (name_lt(a, b) <==> a[k] < b[k]),
        k == a.len() && k < b.len() ==> name_lt(a, b),
        k == b.len() ==> !name_lt(a, b),
{
    lemma_name_lt_skip(a, b, k);
    if k < a.len() {
        assert(a.skip(k)[0] == a[k]);
    }
    if k < b.len() {
        assert(b.skip(k)[0] == b[k]);
    }
}

/// Directories are listed before files whatever their names, and within
/// each group a name that sorts before another is listed first.
pub proof fn lemma_directories_first_then_names(x: (Seq<char>, bool), y: (Seq<char>, bool))
    ensures
        x.1 && !y.1 ==> entry_le(x, y) && !entry_le(y, x),
        x.1 == y.1 && name_lt(x.0, y.0) ==> entry_le(x, y) && !entry_le(y, x),
{
    lemma_name_lt_asymmetric(x.0, y.0);
}

} // verus!
