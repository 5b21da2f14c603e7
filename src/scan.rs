//! Small byte-slice recognizers that the tokenizers are composed of.
use vstd::prelude::*;
use vstd::slice::slice_subrange;

verus! {

/// `.`
pub const DOT: u8 = 46;
/// `@`
pub const AT: u8 = 64;
/// `:`
pub const COLON: u8 = 58;
/// `;`
pub const SEMICOLON: u8 = 59;
/// `,`
pub const COMMA: u8 = 44;
/// `=`
pub const EQUALS: u8 = 61;
/// The space character.
pub const SP: u8 = 32;
/// Carriage return.
pub const CR: u8 = 13;
/// Line feed.
pub const LF: u8 = 10;

/// `pat` occurs in `s` starting at position `i`.
pub open spec fn occurs_at(s: Seq<u8>, i: int, pat: Seq<u8>) -> bool {
    0 <= i && i + pat.len() <= s.len() && s.subrange(i, i + pat.len()) == pat
}

/// The first position at or after `i` where `pat` occurs in `s`.
pub open spec fn find_from(s: Seq<u8>, pat: Seq<u8>, i: int) -> Option<int>
    decreases s.len() + 1 - i,
{
    if i < 0 || i + pat.len() > s.len() {
        None
    } else if s.subrange(i, i + pat.len()) == pat {
        Some(i)
    } else {
        find_from(s, pat, i + 1)
    }
}

/// The first position where `pat` occurs in `s`.
pub open spec fn find(s: Seq<u8>, pat: Seq<u8>) -> Option<int> {
    find_from(s, pat, 0)
}

/// The first position at or after `i` that holds `a` or `b`, or the length of `s`.
pub open spec fn till_from(s: Seq<u8>, a: u8, b: u8, i: int) -> int
    decreases s.len() - i,
{
    if i < 0 || i >= s.len() {
        s.len() as int
    } else if s[i] == a || s[i] == b {
        i
    } else {
        till_from(s, a, b, i + 1)
    }
}

/// The first position of `s` that holds `a` or `b`, or the length of `s`.
pub open spec fn till(s: Seq<u8>, a: u8, b: u8) -> int {
    till_from(s, a, b, 0)
}

/// `s` split on its first `sep`: what precedes it and, if `sep` occurs,
/// what follows it.
pub open spec fn split_first(s: Seq<u8>, sep: u8) -> (Seq<u8>, Option<Seq<u8>>) {
    let c = till(s, sep, sep);
    if c < s.len() {
        (s.take(c), Some(s.skip(c + 1)))
    } else {
        (s, None)
    }
}

/// `s` split on every `sep`, in order; empty pieces are kept.
pub open spec fn split_on(s: Seq<u8>, sep: u8) -> Seq<Seq<u8>>
    decreases s.len(),
{
    let i = till(s, sep, sep);
    if 0 <= i < s.len() {
        seq![s.take(i)] + split_on(s.skip(i + 1), sep)
    } else {
        seq![s]
    }
}

/// The bytes that each slice of `v` covers.
pub open spec fn slices_view<'a>(v: Seq<&'a [u8]>) -> Seq<Seq<u8>> {
    v.map_values(|x: &'a [u8]| x@)
}

/// The bytes of an optional slice.
pub open spec fn opt_slice_view(o: Option<&[u8]>) -> Option<Seq<u8>> {
    match o {
        Some(x) => Some(x@),
        None => None,
    }
}

proof fn lemma_till_from_bounds(s: Seq<u8>, a: u8, b: u8, i: int)
    requires
        0 <= i <= s.len(),
    ensures
        i <= till_from(s, a, b, i) <= s.len(),
    decreases s.len() - i,
{
    if i < s.len() && !(s[i] == a || s[i] == b) {
        lemma_till_from_bounds(s, a, b, i + 1);
    }
}

/// A position that `till` gives lies within `s`, or is its length.
pub proof fn lemma_till_bounds(s: Seq<u8>, a: u8, b: u8)
    ensures
        0 <= till(s, a, b) <= s.len(),
{
    lemma_till_from_bounds(s, a, b, 0);
}

/// Splits `s` on its first `sep`.
pub fn split_once<'a>(s: &'a [u8], sep: u8) -> (r: (&'a [u8], Option<&'a [u8]>))
    ensures
        (r.0@, opt_slice_view(r.1)) == split_first(s@, sep),
{
    let c = position_of_either(s, sep, sep);
    if c < s.len() {
        let r = (slice_subrange(s, 0, c), Some(slice_subrange(s, c + 1, s.len())));
        assert(r.0@ =~= s@.take(c as int));
        assert(r.1->0@ =~= s@.skip(c + 1));
        r
    } else {
        (s, None)
    }
}

/// Splits `s` on every `sep`, keeping the order of the pieces.
pub fn split_all<'a>(s: &'a [u8], sep: u8) -> (r: Vec<&'a [u8]>)
    ensures
        slices_view(r@) == split_on(s@, sep),
        r@.len() >= 1,
{
    let mut out: Vec<&'a [u8]> = Vec::new();
    let mut cur: &'a [u8] = s;
    loop
        invariant
            split_on(s@, sep) == slices_view(out@) + split_on(cur@, sep),
        decreases cur@.len(),
    {
        let i = position_of_either(cur, sep, sep);
        proof {
            lemma_till_bounds(cur@, sep, sep);
        }
        if i < cur.len() {
            let piece = slice_subrange(cur, 0, i);
            let rest = slice_subrange(cur, i + 1, cur.len());
            assert(piece@ =~= cur@.take(i as int));
            assert(rest@ =~= cur@.skip(i + 1));
            let ghost old_out = out@;
            out.push(piece);
            assert(slices_view(out@) =~= slices_view(old_out) + seq![piece@]);
            assert(slices_view(old_out) + split_on(cur@, sep) =~= slices_view(out@) + split_on(
                rest@,
                sep,
            ));
            cur = rest;
        } else {
            let ghost old_out = out@;
            out.push(cur);
            assert(slices_view(out@) =~= slices_view(old_out) + seq![cur@]);
            assert(slices_view(out@) =~= slices_view(old_out) + split_on(cur@, sep));
            return out;
        }
    }
}

/// Whether `pat` occurs in `s` at position `i`.
pub fn matches_at(s: &[u8], i: usize, pat: &[u8]) -> (r: bool)
    ensures
        r == occurs_at(s@, i as int, pat@),
{
    if i > s.len() || pat.len() > s.len() - i {
        return false;
    }
    let mut j: usize = 0;
    while j < pat.len()
        invariant
            i as int + pat@.len() <= s@.len(),
            j <= pat@.len(),
            pat@.len() == pat.len(),
            s@.len() == s.len(),
            forall|k: int| 0 <= k < j ==> s@[i + k] == pat@[k],
        decreases pat@.len() - j,
    {
        if s[i + j] != pat[j] {
            assert(s@.subrange(i as int, i + pat@.len())[j as int] != pat@[j as int]);
            return false;
        }
        j += 1;
    }
    assert(s@.subrange(i as int, i + pat@.len()) =~= pat@);
    true
}

/// Whether `s` begins with `pat`: a literal match.
pub fn starts_with(s: &[u8], pat: &[u8]) -> (r: bool)
    ensures
        r == occurs_at(s@, 0, pat@),
{
    matches_at(s, 0, pat)
}

/// Scans for the first occurrence of `pat`.
pub fn find_pattern(s: &[u8], pat: &[u8]) -> (r: Option<usize>)
    ensures
        r is Some <==> find(s@, pat@) is Some,
        r matches Some(i) ==> find(s@, pat@) == Some(i as int) && occurs_at(s@, i as int, pat@),
{
    if pat.len() == 0 {
        assert(s@.subrange(0, 0) =~= pat@);
        return Some(0);
    }
    let mut i: usize = 0;
    while i < s.len() && pat.len() <= s.len() - i
        invariant
            i <= s@.len(),
            pat@.len() > 0,
            find_from(s@, pat@, i as int) == find(s@, pat@),
        decreases s@.len() - i,
    {
        if matches_at(s, i, pat) {
            return Some(i);
        }
        i += 1;
    }
    None
}

/// Scans while the bytes are neither `a` nor `b`; returns where the scan stopped.
pub fn position_of_either(s: &[u8], a: u8, b: u8) -> (r: usize)
    ensures
        r as int == till(s@, a, b),
        r <= s@.len(),
{
    let mut i: usize = 0;
    while i < s.len()
        invariant
            i <= s@.len(),
            till_from(s@, a, b, i as int) == till(s@, a, b),
        decreases s@.len() - i,
    {
        if s[i] == a || s[i] == b {
            return i;
        }
        i += 1;
    }
    i
}

/// The first position at or after `i` that does not hold `c`, or the length of `s`.
pub open spec fn skip_from(s: Seq<u8>, c: u8, i: int) -> int
    decreases s.len() - i,
{
    if i < 0 || i >= s.len() {
        s.len() as int
    } else if s[i] != c {
        i
    } else {
        skip_from(s, c, i + 1)
    }
}

/// Scans while the bytes equal `c`; returns where the scan stopped.
pub fn skip_while_eq(s: &[u8], c: u8) -> (r: usize)
    ensures
        r as int == skip_from(s@, c, 0),
        r <= s@.len(),
{
    let mut i: usize = 0;
    while i < s.len()
        invariant
            i <= s@.len(),
            skip_from(s@, c, i as int) == skip_from(s@, c, 0),
        decreases s@.len() - i,
    {
        if s[i] != c {
            return i;
        }
        i += 1;
    }
    i
}

/// `s` split on every occurrence of `pat`, in order.
pub open spec fn split_pattern(s: Seq<u8>, pat: Seq<u8>) -> Seq<Seq<u8>>
    decreases s.len(),
{
    match find(s, pat) {
        Some(i) => if 0 <= i && pat.len() > 0 && i + pat.len() <= s.len() {
            seq![s.take(i)] + split_pattern(s.skip(i + pat.len()), pat)
        } else {
            seq![s]
        },
        None => seq![s],
    }
}

/// Splits `s` on every occurrence of a non-empty `pat`, keeping the order.
pub fn split_all_pattern<'a>(s: &'a [u8], pat: &[u8]) -> (r: Vec<&'a [u8]>)
    requires
        pat@.len() > 0,
    ensures
        slices_view(r@) == split_pattern(s@, pat@),
        r@.len() >= 1,
{
    let mut out: Vec<&'a [u8]> = Vec::new();
    let mut cur: &'a [u8] = s;
    loop
        invariant
            pat@.len() > 0,
            split_pattern(s@, pat@) == slices_view(out@) + split_pattern(cur@, pat@),
        decreases cur@.len(),
    {
        match find_pattern(cur, pat) {
            Some(i) => {
                assert(occurs_at(cur@, i as int, pat@));
                let clen: usize = cur.len();
                let piece = slice_subrange(cur, 0, i);
                let rest = slice_subrange(cur, i + pat.len(), clen);
                assert(piece@ =~= cur@.take(i as int));
                assert(rest@ =~= cur@.skip(i + pat@.len()));
                let ghost old_out = out@;
                out.push(piece);
                assert(slices_view(out@) =~= slices_view(old_out) + seq![piece@]);
                assert(slices_view(old_out) + split_pattern(cur@, pat@) =~= slices_view(out@)
                    + split_pattern(rest@, pat@));
                cur = rest;
            },
            None => {
                let ghost old_out = out@;
                out.push(cur);
                assert(slices_view(out@) =~= slices_view(old_out) + seq![cur@]);
                assert(slices_view(out@) =~= slices_view(old_out) + split_pattern(cur@, pat@));
                return out;
            },
        }
    }
}

} // verus!
