//! The `Range` request header (a single byte range) and the `Content-Range`
//! answer to it.
use vstd::prelude::*;
use crate::text::{
    chars_of, decimal_text, format_u64, lemma_decimal_roundtrip, parse_u64, string_from_chars,
    u64_text, is_digit, all_digits, lemma_decimal_text_digits,
};

verus! {

/// A byte range asked for by a client: `bytes=start-end`, where either bound
/// may be left out (but not both).
#[derive(Debug, Clone, Copy, PartialEq, Eq, Structural)]
pub struct RangeHeader {
    pub start: Option<u64>,
    pub end: Option<u64>,
}

/// The request headers that the file handlers read: the value of the first
/// `Range` header, if the request carries one.
pub struct RequestHeaders {
    range: Option<String>,
}

/// The characters `bytes=` that open a byte-range request.
pub open spec fn bytes_eq_prefix() -> Seq<char> {
    seq!['b', 'y', 't', 'e', 's', '=']
}

/// The position of the first `-` in `r`, or `r.len()` when it has none.
pub open spec fn first_dash(r: Seq<char>) -> int
    decreases r.len(),
{
    if r.len() == 0 {
        0
    } else if r[0] == '-' {
        0
    } else {
        1 + first_dash(r.drop_first())
    }
}

/// An empty bound is absent; otherwise it must be a `u64` in decimal
/// (`None` when it is not).
pub open spec fn optional_bound(t: Seq<char>) -> Option<Option<u64>> {
    if t.len() == 0 {
        Some(None)
    } else {
        match u64_text(t) {
            Some(v) => Some(Some(v)),
            None => None,
        }
    }
}

/// What a `Range` header value asks for: it must start with `bytes=`, hold
/// no `,` (a single range only), and split at its first `-` into two bounds,
/// each empty or a decimal `u64`, not both empty.
pub open spec fn range_request(value: Seq<char>) -> Option<RangeHeader> {
    if !(value.len() >= 6 && value.take(6) == bytes_eq_prefix()) {
        None
    } else {
        let r = value.skip(6);
        if r.contains(',') {
            None
        } else {
            let p = first_dash(r);
            let a = r.take(p);
            let b = if p < r.len() { r.skip(p + 1) } else { Seq::<char>::empty() };
            match (optional_bound(a), optional_bound(b)) {
                (Some(s), Some(e)) => if s is None && e is None {
                    None
                } else {
                    Some(RangeHeader { start: s, end: e })
                },
                _ => None,
            }
        }
    }
}

/// The inclusive byte positions `(first, last)` that a range selects from a
/// body of `len` bytes, or `None` when it cannot be satisfied.
pub open spec fn resolve_spec(h: RangeHeader, len: u64) -> Option<(u64, u64)> {
    match (h.start, h.end) {
        (Some(s), Some(e)) => if s <= e && e < len { Some((s, e)) } else { None },
        (Some(s), None) => if s < len { Some((s, (len - 1) as u64)) } else { None },
        (None, Some(e)) => if e != 0 {
            Some((if len >= e { (len - e) as u64 } else { 0u64 }, (len - 1) as u64))
        } else {
            None
        },
        (None, None) => None,
    }
}

/// A range that `resolve` can work out without running below zero: a suffix
/// range (`bytes=-n`, `n > 0`) needs a body of at least one byte.
pub open spec fn resolvable(h: RangeHeader, len: u64) -> bool {
    match (h.start, h.end) {
        (None, Some(e)) => e == 0 || len > 0,
        _ => true,
    }
}

/// The `Content-Range` value `bytes first-last/size`.
pub open spec fn content_range_text(first: u64, last: u64, size: u64) -> Seq<char> {
    seq!['b', 'y', 't', 'e', 's', ' '] + decimal_text(first as nat) + seq!['-'] + decimal_text(
        last as nat,
    ) + seq!['/'] + decimal_text(size as nat)
}

proof fn lemma_first_dash_at(r: Seq<char>, i: int)
    requires
        0 <= i <= r.len(),
        forall|j: int| 0 <= j < i ==> r[j] != '-',
        i == r.len() || r[i] == '-',
    ensures
        first_dash(r) == i,
    decreases i,
{
    if i > 0 {
        let t = r.drop_first();
        assert forall|j: int| 0 <= j < i - 1 implies t[j] != '-' by {
            assert(t[j] == r[j + 1]);
        }
        lemma_first_dash_at(t, i - 1);
    }
}

fn optional_bound_of(v: &Vec<char>, lo: usize, hi: usize) -> (r: Option<Option<u64>>)
    requires
        lo <= hi <= v@.len(),
    ensures
        r == optional_bound(v@.subrange(lo as int, hi as int)),
{
    if lo == hi {
        Some(None)
    } else {
        match parse_u64(v.as_slice(), lo, hi) {
            Some(n) => Some(Some(n)),
            None => None,
        }
    }
}

/// Reads a `Range` header value.
pub fn parse_range_value(value: &str) -> (r: Option<RangeHeader>)
    ensures
        r == range_request(value@),
{
    let v = chars_of(value);
    let n = v.len();
    if n < 6 || v[0] != 'b' || v[1] != 'y' || v[2] != 't' || v[3] != 'e' || v[4] != 's' || v[5]
        != '=' {
        proof {
            if n >= 6 {
                assert(value@.take(6) != bytes_eq_prefix()) by {
                    if value@.take(6) == bytes_eq_prefix() {
                        assert(value@.take(6)[0] == v@[0]);
                        assert(value@.take(6)[1] == v@[1]);
                        assert(value@.take(6)[2] == v@[2]);
                        assert(value@.take(6)[3] == v@[3]);
                        assert(value@.take(6)[4] == v@[4]);
                        assert(value@.take(6)[5] == v@[5]);
                    }
                }
            }
        }
        return None;
    }
    assert(value@.take(6) =~= bytes_eq_prefix());
    let ghost r = value@.skip(6);
    let mut i: usize = 6;
    let mut dash: usize = n;
    while i < n
        invariant
            6 <= i <= n == v@.len(),
            v@ == value@,
            r == value@.skip(6),
            forall|j: int| 6 <= j < i ==> v@[j] != ',',
            dash == n || (6 <= dash < i && v@[dash as int] == '-'),
            forall|j: int| 6 <= j < i && j < dash ==> v@[j] != '-',
        decreases n - i,
    {
        if v[i] == ',' {
            assert(r[i - 6] == ',');
            assert(r.contains(','));
            return None;
        }
        if v[i] == '-' && dash == n {
            dash = i;
        }
        i = i + 1;
    }
    assert(!r.contains(',')) by {
        if r.contains(',') {
            let j = choose|j: int| 0 <= j < r.len() && r[j] == ',';
            assert(v@[j + 6] == ',');
        }
    }
    proof {
        assert forall|j: int| 0 <= j < dash - 6 implies r[j] != '-' by {
            assert(r[j] == v@[j + 6]);
        }
        if dash < n {
            assert(r[dash - 6] == '-');
        }
        lemma_first_dash_at(r, dash - 6);
    }
    let start = optional_bound_of(&v, 6, dash);
    assert(v@.subrange(6, dash as int) =~= r.take(dash - 6));
    let end = if dash < n {
        assert(v@.subrange(dash + 1, n as int) =~= r.skip(dash - 6 + 1));
        optional_bound_of(&v, dash + 1, n)
    } else {
        assert(v@.subrange(n as int, n as int) =~= Seq::<char>::empty());
        optional_bound_of(&v, n, n)
    };
    match (start, end) {
        (Some(s), Some(e)) => {
            if s.is_none() && e.is_none() {
                None
            } else {
                Some(RangeHeader { start: s, end: e })
            }
        },
        _ => None,
    }
}

impl RequestHeaders {
    /// The headers of a request whose first `Range` header has the value
    /// `range` (`None` when it has none).
    pub fn new(range: Option<String>) -> (h: Self)
        ensures
            h.range_value() == (match range {
                Some(s) => Some(s@),
                None => None::<Seq<char>>,
            }),
    {
        RequestHeaders { range }
    }

    /// The value of the request's first `Range` header.
    pub closed spec fn range_value(&self) -> Option<Seq<char>> {
        match &self.range {
            Some(s) => Some(s@),
            None => None,
        }
    }

    /// The single byte range that the request asks for, if its `Range`
    /// header holds one that can be read.
    pub fn extract_range_header(&self) -> (r: Option<RangeHeader>)
        ensures
            r == (match self.range_value() {
                Some(v) => range_request(v),
                None => None,
            }),
    {
        match &self.range {
            Some(s) => parse_range_value(s.as_str()),
            None => None,
        }
    }
}

impl RangeHeader {
    /// The inclusive byte positions that this range selects from a body of
    /// `len` bytes; always inside the body.
    pub fn resolve(&self, len: u64) -> (r: Option<(u64, u64)>)
        requires
            resolvable(*self, len),
        ensures
            r == resolve_spec(*self, len),
            r matches Some((first, last)) ==> first <= last < len,
    {
        match (self.start, self.end) {
            (Some(s), Some(e)) => if s <= e && e < len {
                Some((s, e))
            } else {
                None
            },
            (Some(s), None) => if s < len {
                Some((s, len - 1))
            } else {
                None
            },
            (None, Some(e)) => if e != 0 {
                Some((len.saturating_sub(e), len - 1))
            } else {
                None
            },
            (None, None) => None,
        }
    }
}

/// The `Content-Range` header value for the bytes `first..=last` of a body
/// of `size` bytes.
pub fn content_range(first: u64, last: u64, size: u64) -> (s: String)
    ensures
        s@ == content_range_text(first, last, size),
{
    let mut v: Vec<char> = Vec::new();
    v.push('b');
    v.push('y');
    v.push('t');
    v.push('e');
    v.push('s');
    v.push(' ');
    let mut a = format_u64(first);
    v.append(&mut a);
    v.push('-');
    let mut b = format_u64(last);
    v.append(&mut b);
    v.push('/');
    let mut c = format_u64(size);
    v.append(&mut c);
    assert(v@ =~= content_range_text(first, last, size));
    string_from_chars(v.as_slice())
}

proof fn lemma_no_dash_no_comma(n: u64)
    ensures
        !decimal_text(n as nat).contains('-'),
        !decimal_text(n as nat).contains(','),
        forall|j: int| 0 <= j < decimal_text(n as nat).len() ==> decimal_text(n as nat)[j] != '-',
{
    lemma_decimal_text_digits(n as nat);
    let t = decimal_text(n as nat);
    assert forall|j: int| 0 <= j < t.len() implies t[j] != '-' && t[j] != ',' by {
        assert(is_digit(t[j]));
    }
}

/// A single range written the way clients write it, `bytes=first-last`,
/// `bytes=first-` or `bytes=-suffix`, is read back as exactly the bounds that
/// were written.
pub proof fn lemma_written_range_read_back(first: u64, last: u64)
    ensures
        range_request(bytes_eq_prefix() + decimal_text(first as nat) + seq!['-'] + decimal_text(
            last as nat,
        )) == Some(RangeHeader { start: Some(first), end: Some(last) }),
        range_request(bytes_eq_prefix() + decimal_text(first as nat) + seq!['-']) == Some(
            RangeHeader { start: Some(first), end: None },
        ),
        range_request(bytes_eq_prefix() + seq!['-'] + decimal_text(last as nat)) == Some(
            RangeHeader { start: None, end: Some(last) },
        ),
{
    lemma_no_dash_no_comma(first);
    lemma_no_dash_no_comma(last);
    lemma_decimal_roundtrip(first);
    lemma_decimal_roundtrip(last);
    lemma_decimal_text_digits(first as nat);
    lemma_decimal_text_digits(last as nat);
    let a = decimal_text(first as nat);
    let b = decimal_text(last as nat);
    let dash = seq!['-'];
    // both bounds
    let v1 = bytes_eq_prefix() + a + dash + b;
    let r1 = v1.skip(6);
    assert(v1.take(6) =~= bytes_eq_prefix());
    assert(r1 =~= a + dash + b);
    assert forall|j: int| 0 <= j < a.len() implies r1[j] != '-' by {
        assert(r1[j] == a[j]);
    }
    lemma_first_dash_at(r1, a.len() as int);
    assert(r1.take(a.len() as int) =~= a);
    assert(r1.skip(a.len() as int + 1) =~= b);
    assert(!r1.contains(',')) by {
        if r1.contains(',') {
            let j = choose|j: int| 0 <= j < r1.len() && r1[j] == ',';
            if j < a.len() {
                assert(a.contains(','));
            } else if j > a.len() {
                assert(b[j - a.len() - 1] == ',');
                assert(b.contains(','));
            }
        }
    }
    // open end
    let v2 = bytes_eq_prefix() + a + dash;
    let r2 = v2.skip(6);
    assert(v2.take(6) =~= bytes_eq_prefix());
    assert(r2 =~= a + dash);
    assert forall|j: int| 0 <= j < a.len() implies r2[j] != '-' by {
        assert(r2[j] == a[j]);
    }
    lemma_first_dash_at(r2, a.len() as int);
    assert(r2.take(a.len() as int) =~= a);
    assert(r2.skip(a.len() as int + 1) =~= Seq::<char>::empty());
    assert(!r2.contains(',')) by {
        if r2.contains(',') {
            let j = choose|j: int| 0 <= j < r2.len() && r2[j] == ',';
            if j < a.len() {
                assert(a.contains(','));
            }
        }
    }
    // suffix
    let v3 = bytes_eq_prefix() + dash + b;
    let r3 = v3.skip(6);
    assert(v3.take(6) =~= bytes_eq_prefix());
    assert(r3 =~= dash + b);
    lemma_first_dash_at(r3, 0);
    assert(r3.take(0) =~= Seq::<char>::empty());
    assert(r3.skip(1) =~= b);
    assert(!r3.contains(',')) by {
        if r3.contains(',') {
            let j = choose|j: int| 0 <= j < r3.len() && r3[j] == ',';
            if j > 0 {
                assert(b[j - 1] == ',');
                assert(b.contains(','));
            }
        }
    }
}

/// A suffix range `bytes=-n` (`n > 0`) over a non-empty body selects its
/// last `min(n, len)` bytes.
pub proof fn lemma_suffix_range_selects_tail(n: u64, len: u64)
    requires
        n > 0,
        len > 0,
    ensures
        resolve_spec(RangeHeader { start: None, end: Some(n) }, len) matches Some((first, last))
            && last == len - 1 && last - first + 1 == (if n <= len { n } else { len }),
{
}

/// An open-ended range `bytes=s-` selects every byte from `s` to the last
/// one of the body when `s` lies inside it, and nothing otherwise.
pub proof fn lemma_open_range_selects_rest(s: u64, len: u64)
    ensures
        s < len ==> resolve_spec(RangeHeader { start: Some(s), end: None }, len) == Some(
            (s, (len - 1) as u64),
        ),
        s < len ==> (resolve_spec(RangeHeader { start: Some(s), end: None }, len) matches Some(
            (first, last),
        ) && last - first + 1 == len - s),
        s >= len ==> resolve_spec(RangeHeader { start: Some(s), end: None }, len) is None,
{
}

/// A closed range `bytes=s-e` selects exactly the bytes `s..=e` when they
/// lie in the body in that order, and nothing otherwise.
pub proof fn lemma_closed_range_selects_its_bounds(s: u64, e: u64, len: u64)
    ensures
        s <= e < len ==> resolve_spec(RangeHeader { start: Some(s), end: Some(e) }, len) == Some(
            (s, e),
        ),
        !(s <= e < len) ==> resolve_spec(RangeHeader { start: Some(s), end: Some(e) }, len) is None,
{
}

/// A range with no bounds, or the empty suffix `bytes=-0`, selects nothing.
pub proof fn lemma_empty_ranges_select_nothing(len: u64)
    ensures
        resolve_spec(RangeHeader { start: None, end: None }, len) is None,
        resolve_spec(RangeHeader { start: None, end: Some(0) }, len) is None,
{
}

/// Whatever a range selects lies inside the body, first byte before last
/// (for the ranges that can be worked out: a suffix range needs a byte).
pub proof fn lemma_selection_inside_body(h: RangeHeader, len: u64)
    requires
        resolvable(h, len),
    ensures
        resolve_spec(h, len) matches Some((first, last)) ==> first <= last < len,
{
}

} // verus!
