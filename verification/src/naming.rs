//! File names: cleaning client-supplied names (through `sanitize_filename`)
//! and naming staging files for uploads (through `nanoid`).
use vstd::prelude::*;
use crate::text::{chars_of, string_from_chars};

verus! {

/// Characters that `sanitize_filename` removes as illegal in a file name.
pub open spec fn is_illegal_name_char(c: char) -> bool {
    c == '/' || c == '?' || c == '<' || c == '>' || c == '\\' || c == ':' || c == '*' || c == '|'
        || c == '"'
}

/// Control characters, which `sanitize_filename` removes too.
pub open spec fn is_control_name_char(c: char) -> bool {
    ('\u{0}' <= c && c <= '\u{1f}') || ('\u{80}' <= c && c <= '\u{9f}')
}

/// The characters that survive cleaning.
pub open spec fn kept_name_char(c: char) -> bool {
    !is_illegal_name_char(c) && !is_control_name_char(c)
}

/// `s` without its illegal and control characters.
pub open spec fn strip_name(s: Seq<char>) -> Seq<char>
    decreases s.len(),
{
    if s.len() == 0 {
        s
    } else if kept_name_char(s.last()) {
        strip_name(s.drop_last()).push(s.last())
    } else {
        strip_name(s.drop_last())
    }
}

/// `s` is made of dots only (and is not empty).
pub open spec fn all_dots(s: Seq<char>) -> bool {
    s.len() > 0 && forall|i: int| 0 <= i < s.len() ==> s[i] == '.'
}

/// The number of bytes that `c` takes in UTF-8.
pub open spec fn utf8_width(c: char) -> nat {
    if (c as u32) < 0x80 {
        1
    } else if (c as u32) < 0x800 {
        2
    } else if (c as u32) < 0x10000 {
        3
    } else {
        4
    }
}

/// The longest prefix of `s` whose UTF-8 encoding fits in `budget` bytes.
pub open spec fn fit_prefix(s: Seq<char>, budget: nat) -> Seq<char>
    decreases s.len(),
{
    if s.len() == 0 {
        s
    } else if utf8_width(s[0]) <= budget {
        seq![s[0]] + fit_prefix(s.drop_first(), (budget - utf8_width(s[0])) as nat)
    } else {
        Seq::<char>::empty()
    }
}

/// What `sanitize_filename::sanitize` returns on Unix (default options:
/// nothing put in place of what is removed, truncation on): the illegal
/// characters `/ ? < > \ : * | "` and the control characters are removed, a
/// name made of dots only becomes empty, and the result is cut to at most
/// 255 bytes at a character boundary.
pub open spec fn sanitized(s: Seq<char>) -> Seq<char> {
    let t = strip_name(s);
    let u = if all_dots(t) { Seq::<char>::empty() } else { t };
    fit_prefix(u, 255)
}

/// Cleans a client-supplied file name (`sanitize_filename::sanitize`).
/// The contract states the crate's behaviour on non-Windows targets, where
/// its Windows-only rules (reserved device names, trailing dots and spaces)
/// are off.
#[verifier::external_body]
pub(crate) fn sanitize_name(name: &str) -> (r: String)
    ensures
        r@ == sanitized(name@),
{
    sanitize_filename::sanitize(name)
}

/// The characters of nanoid's URL-safe alphabet.
pub open spec fn is_id_char(c: char) -> bool {
    c == '_' || c == '-' || ('0' <= c && c <= '9') || ('a' <= c && c <= 'z') || ('A' <= c && c
        <= 'Z')
}

/// A fresh random identifier, made by `nanoid::format` with the default
/// random source and the URL-safe alphabet `nanoid::alphabet::SAFE`, 21
/// characters long (what `nanoid!()` expands to). The contract claims the
/// length and that every character is from that alphabet; which
/// characters come out is chance and is not claimed.
#[verifier::external_body]
pub(crate) fn random_id() -> (id: String)
    ensures
        id@.len() == 21,
        forall|i: int| 0 <= i < id@.len() ==> is_id_char(#[trigger] id@[i]),
{
    nanoid::format(nanoid::rngs::default, &nanoid::alphabet::SAFE, 21)
}

/// The name of the staging file for an upload: `{name}-{id}.part`.
pub open spec fn staging_name_spec(name: Seq<char>, id: Seq<char>) -> Seq<char> {
    name + seq!['-'] + id + seq!['.', 'p', 'a', 'r', 't']
}

/// Builds the staging file name `{name}-{id}.part`.
pub fn staging_file_name(name: &str, id: &str) -> (r: String)
    ensures
        r@ == staging_name_spec(name@, id@),
{
    let mut v = chars_of(name);
    v.push('-');
    let mut w = chars_of(id);
    v.append(&mut w);
    v.push('.');
    v.push('p');
    v.push('a');
    v.push('r');
    v.push('t');
    assert(v@ =~= staging_name_spec(name@, id@));
    string_from_chars(v.as_slice())
}

proof fn lemma_strip_name_kept(s: Seq<char>)
    ensures
        forall|i: int| 0 <= i < strip_name(s).len() ==> kept_name_char(#[trigger] strip_name(s)[i]),
    decreases s.len(),
{
    if s.len() > 0 {
        lemma_strip_name_kept(s.drop_last());
        let r = strip_name(s.drop_last());
        if kept_name_char(s.last()) {
            assert forall|i: int| 0 <= i < r.push(s.last()).len() implies kept_name_char(
                #[trigger] r.push(s.last())[i],
            ) by {
                if i < r.len() {
                    assert(r.push(s.last())[i] == r[i]);
                }
            }
        }
    }
}

proof fn lemma_fit_prefix_is_prefix(s: Seq<char>, budget: nat)
    ensures
        fit_prefix(s, budget).len() <= s.len(),
        fit_prefix(s, budget) == s.take(fit_prefix(s, budget).len() as int),
        s.len() * 4 <= budget ==> fit_prefix(s, budget) == s,
    decreases s.len(),
{
    if s.len() > 0 {
        let w = utf8_width(s[0]);
        if w <= budget {
            lemma_fit_prefix_is_prefix(s.drop_first(), (budget - w) as nat);
            let f = fit_prefix(s.drop_first(), (budget - w) as nat);
            assert(seq![s[0]] + f =~= s.take(f.len() as int + 1));
            if s.len() * 4 <= budget {
                assert(seq![s[0]] + s.drop_first() =~= s);
            }
        } else {
            assert(s.take(0) =~= Seq::<char>::empty());
        }
    } else {
        assert(s.take(0) =~= s);
    }
}

/// A cleaned name is a plain file name: it holds no `/` (nor any other
/// illegal or control character) and is neither `.` nor `..`, so as a path
/// it is empty or a single name below the directory it is joined to.
pub proof fn lemma_sanitized_is_plain_name(s: Seq<char>)
    ensures
        forall|i: int| 0 <= i < sanitized(s).len() ==> kept_name_char(#[trigger] sanitized(s)[i]),
        !sanitized(s).contains('/'),
        sanitized(s) != seq!['.'],
        sanitized(s) != seq!['.', '.'],
{
    let t = strip_name(s);
    let u = if all_dots(t) { Seq::<char>::empty() } else { t };
    lemma_strip_name_kept(s);
    lemma_fit_prefix_is_prefix(u, 255);
    let r = sanitized(s);
    assert forall|i: int| 0 <= i < r.len() implies kept_name_char(#[trigger] r[i]) by {
        assert(r[i] == u[i]);
        assert(u[i] == t[i]);
    }
    assert(!r.contains('/')) by {
        if r.contains('/') {
            let j = choose|j: int| 0 <= j < r.len() && r[j] == '/';
            assert(kept_name_char(r[j]));
        }
    }
    if r.len() == 1 || r.len() == 2 {
        if u.len() * 4 > 255 {
            // at least 63 characters fit, so a cut result is longer than two
            lemma_fit_prefix_long(u, 255);
        }
        if r =~= u {
            if r == seq!['.'] || r == seq!['.', '.'] {
                assert(all_dots(t));
            }
        }
    }
}

proof fn lemma_fit_prefix_long(s: Seq<char>, budget: nat)
    ensures
        fit_prefix(s, budget).len() >= (if s.len() * 4 <= budget { s.len() } else { budget / 4 }),
    decreases s.len(),
{
    if s.len() > 0 {
        let w = utf8_width(s[0]);
        if w <= budget {
            lemma_fit_prefix_long(s.drop_first(), (budget - w) as nat);
        }
    }
}

} // verus!
