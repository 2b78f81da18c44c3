//! Byte-level text utilities shared by all analysis passes.
//!
//! Source text is modelled as a sequence of bytes; a file is split into lines
//! the way `str::lines` splits them (at `\n`, with a `\r` stripped from the
//! end of a line that was terminated by `\n`, and no empty final line for a
//! trailing newline).

use vstd::prelude::*;
use vstd::string::StringSliceAdditionalSpecFns;
use vstd::string::StrSliceExecFns;

verus! {

/// Build a byte-vector marker from a literal pattern.
pub fn marker(s: &str) -> (r: Vec<u8>)
    ensures
        r@ == s.spec_bytes(),
{
    s.as_bytes_vec()
}

/// The ASCII whitespace bytes recognised when skipping blanks: space, tab,
/// line feed, vertical tab, form feed and carriage return.
pub open spec fn is_space(b: u8) -> bool {
    b == 32 || b == 9 || b == 10 || b == 11 || b == 12 || b == 13
}

/// Word bytes: ASCII digits, letters and underscore.
pub open spec fn is_word(b: u8) -> bool {
    (48 <= b <= 57) || (65 <= b <= 90) || (97 <= b <= 122) || b == 95
}

/// `pat` occurs in `s` starting at index `i`.
pub open spec fn match_at(s: Seq<u8>, pat: Seq<u8>, i: int) -> bool {
    0 <= i && i + pat.len() <= s.len() && s.subrange(i, i + pat.len() as int) == pat
}

/// `pat` occurs somewhere in `s`.
pub open spec fn contains_seq(s: Seq<u8>, pat: Seq<u8>) -> bool {
    exists|i: int| match_at(s, pat, i)
}

/// Number of non-overlapping occurrences of a non-empty `pat` in `s`,
/// counted left to right, as `str::matches` counts them.
pub open spec fn count_matches(s: Seq<u8>, pat: Seq<u8>) -> nat
    decreases s.len(),
{
    if pat.len() == 0 || s.len() < pat.len() {
        0
    } else if s.subrange(0, pat.len() as int) == pat {
        1 + count_matches(s.skip(pat.len() as int), pat)
    } else {
        count_matches(s.skip(1), pat)
    }
}

/// Index of the first byte `b` in `s` at or after `from`, or `s.len()` if
/// there is none.
pub open spec fn find_byte(s: Seq<u8>, b: u8, from: int) -> int
    decreases s.len() - from,
{
    if from < 0 || from >= s.len() {
        s.len() as int
    } else if s[from] == b {
        from
    } else {
        find_byte(s, b, from + 1)
    }
}

/// Index of the first non-whitespace byte of `s` at or after `from`, or
/// `s.len()` if the rest of `s` is all whitespace.
pub open spec fn skip_ws(s: Seq<u8>, from: int) -> int
    decreases s.len() - from,
{
    if from < 0 || from >= s.len() {
        s.len() as int
    } else if !is_space(s[from]) {
        from
    } else {
        skip_ws(s, from + 1)
    }
}

/// Index of the last non-whitespace byte of `s` at or before `j`, or `-1` if
/// every byte up to `j` is whitespace.
pub open spec fn rskip_ws(s: Seq<u8>, j: int) -> int
    decreases j + 1,
{
    if j < 0 || j >= s.len() {
        -1
    } else if !is_space(s[j]) {
        j
    } else {
        rskip_ws(s, j - 1)
    }
}

/// Index of the first non-word byte of `s` at or after `from`, or `s.len()`.
pub open spec fn skip_word(s: Seq<u8>, from: int) -> int
    decreases s.len() - from,
{
    if from < 0 || from >= s.len() {
        s.len() as int
    } else if !is_word(s[from]) {
        from
    } else {
        skip_word(s, from + 1)
    }
}

/// Index of the last occurrence of byte `b` in `s`, or `-1` when there is
/// none.
pub open spec fn rfind_byte(s: Seq<u8>, b: u8) -> int
    decreases s.len(),
{
    if s.len() == 0 {
        -1
    } else if s.last() == b {
        s.len() - 1
    } else {
        rfind_byte(s.drop_last(), b)
    }
}

/// A line is blank when every byte of it is whitespace.
pub open spec fn is_blank(l: Seq<u8>) -> bool {
    skip_ws(l, 0) == l.len()
}

/// The line, with leading whitespace ignored, starts with `pat`.
pub open spec fn trimmed_starts_with(l: Seq<u8>, pat: Seq<u8>) -> bool {
    match_at(l, pat, skip_ws(l, 0))
}

/// A line segment that was terminated by `\n` loses one trailing `\r`.
pub open spec fn strip_cr(l: Seq<u8>) -> Seq<u8> {
    if l.len() > 0 && l[l.len() - 1] == 13 {
        l.drop_last()
    } else {
        l
    }
}

/// The lines of `s`, split as `str::lines` splits them.
pub open spec fn spec_lines(s: Seq<u8>) -> Seq<Seq<u8>>
    decreases s.len(),
{
    if s.len() == 0 {
        Seq::empty()
    } else {
        let i = find_byte(s, 10, 0);
        if 0 <= i && i < s.len() {
            seq![strip_cr(s.subrange(0, i))] + spec_lines(s.skip(i + 1))
        } else {
            seq![s]
        }
    }
}

pub proof fn lemma_find_byte_bounds(s: Seq<u8>, b: u8, from: int)
    requires
        0 <= from <= s.len(),
    ensures
        from <= find_byte(s, b, from) <= s.len(),
        find_byte(s, b, from) < s.len() ==> s[find_byte(s, b, from)] == b,
        forall|j: int| from <= j < find_byte(s, b, from) ==> s[j] != b,
    decreases s.len() - from,
{
    if from < s.len() && s[from] != b {
        lemma_find_byte_bounds(s, b, from + 1);
    }
}

pub proof fn lemma_skip_ws_bounds(s: Seq<u8>, from: int)
    requires
        0 <= from <= s.len(),
    ensures
        from <= skip_ws(s, from) <= s.len(),
        skip_ws(s, from) < s.len() ==> !is_space(s[skip_ws(s, from)]),
        forall|j: int| from <= j < skip_ws(s, from) ==> is_space(s[j]),
    decreases s.len() - from,
{
    if from < s.len() && is_space(s[from]) {
        lemma_skip_ws_bounds(s, from + 1);
    }
}

pub proof fn lemma_skip_word_bounds(s: Seq<u8>, from: int)
    requires
        0 <= from <= s.len(),
    ensures
        from <= skip_word(s, from) <= s.len(),
        skip_word(s, from) < s.len() ==> !is_word(s[skip_word(s, from)]),
        forall|j: int| from <= j < skip_word(s, from) ==> is_word(s[j]),
    decreases s.len() - from,
{
    if from < s.len() && is_word(s[from]) {
        lemma_skip_word_bounds(s, from + 1);
    }
}

/// Whether `b` is one of the recognised whitespace bytes.
pub fn is_space_byte(b: u8) -> (r: bool)
    ensures
        r == is_space(b),
{
    b == 32 || b == 9 || b == 10 || b == 11 || b == 12 || b == 13
}

/// Whether `b` is a word byte.
pub fn is_word_byte(b: u8) -> (r: bool)
    ensures
        r == is_word(b),
{
    (48 <= b && b <= 57) || (65 <= b && b <= 90) || (97 <= b && b <= 122) || b == 95
}

/// The bytes of `s` from `lo` (inclusive) to `hi` (exclusive), as a fresh
/// vector.
pub fn subvec(s: &Vec<u8>, lo: usize, hi: usize) -> (r: Vec<u8>)
    requires
        lo <= hi <= s@.len(),
    ensures
        r@ == s@.subrange(lo as int, hi as int),
{
    let mut r: Vec<u8> = Vec::new();
    let mut i: usize = lo;
    while i < hi
        invariant
            lo <= i <= hi <= s@.len(),
            r@ == s@.subrange(lo as int, i as int),
        decreases hi - i,
    {
        r.push(s[i]);
        proof {
            assert(r@ =~= s@.subrange(lo as int, i + 1 as int));
        }
        i += 1;
    }
    r
}

/// Copy a byte vector.
pub fn copy_bytes(b: &Vec<u8>) -> (r: Vec<u8>)
    ensures
        r@ == b@,
{
    let r = subvec(b, 0, b.len());
    proof {
        assert(b@.subrange(0, b@.len() as int) =~= b@);
    }
    r
}

/// Whether the two byte vectors hold the same bytes.
pub fn bytes_eq(a: &Vec<u8>, b: &Vec<u8>) -> (r: bool)
    ensures
        r == (a@ == b@),
{
    if a.len() != b.len() {
        return false;
    }
    let mut i: usize = 0;
    while i < a.len()
        invariant
            0 <= i <= a@.len(),
            a@.len() == b@.len(),
            forall|j: int| 0 <= j < i ==> a@[j] == b@[j],
        decreases a@.len() - i,
    {
        if a[i] != b[i] {
            return false;
        }
        i += 1;
    }
    proof {
        assert(a@ =~= b@);
    }
    true
}

/// Whether `pat` occurs in `s` starting exactly at `i`.
pub fn match_at_exec(s: &Vec<u8>, pat: &Vec<u8>, i: usize) -> (r: bool)
    requires
        i + pat@.len() <= s@.len(),
    ensures
        r == match_at(s@, pat@, i as int),
{
    let slen = s.len();
    let plen = pat.len();
    let mut j: usize = 0;
    while j < plen
        invariant
            0 <= j <= plen,
            plen == pat@.len(),
            slen == s@.len(),
            i + plen <= slen,
            forall|k: int| 0 <= k < j ==> s@[i + k] == pat@[k],
        decreases plen - j,
    {
        if s[i + j] != pat[j] {
            assert(s@.subrange(i as int, i + pat@.len() as int)[j as int] != pat@[j as int]);
            return false;
        }
        j += 1;
    }
    proof {
        assert(s@.subrange(i as int, i + pat@.len() as int) =~= pat@);
    }
    true
}

/// Whether `pat` occurs anywhere in `s`.
pub fn contains_bytes(s: &Vec<u8>, pat: &Vec<u8>) -> (r: bool)
    ensures
        r == contains_seq(s@, pat@),
{
    if pat.len() > s.len() {
        assert(forall|i: int| !match_at(s@, pat@, i));
        return false;
    }
    if pat.len() == 0 {
        assert(match_at(s@, pat@, 0)) by {
            assert(s@.subrange(0, 0) =~= pat@);
        }
        return true;
    }
    let end = s.len() - pat.len();
    let mut i: usize = 0;
    loop
        invariant
            0 <= i <= end + 1,
            end == s@.len() - pat@.len(),
            0 < pat@.len() <= s@.len(),
            s@.len() == s.len(),
            forall|k: int| 0 <= k < i ==> !match_at(s@, pat@, k),
        decreases end + 1 - i,
    {
        if i > end {
            assert(forall|k: int| !match_at(s@, pat@, k));
            return false;
        }
        if match_at_exec(s, pat, i) {
            return true;
        }
        i += 1;
    }
}

/// Number of non-overlapping occurrences of `pat` in `s`, scanning left to
/// right, as `str::matches` would count them.
pub fn count_matches_exec(s: &Vec<u8>, pat: &Vec<u8>) -> (r: usize)
    ensures
        r == count_matches(s@, pat@),
        r <= s@.len(),
{
    if pat.len() == 0 {
        return 0;
    }
    proof {
        lemma_count_matches_le(s@, pat@);
        assert(s@.skip(0) =~= s@);
    }
    let mut pos: usize = 0;
    let mut count: usize = 0;
    while pos < s.len()
        invariant
            0 <= pos <= s@.len(),
            s@.len() == s.len(),
            pat@.len() == pat.len(),
            pat@.len() > 0,
            count + count_matches(s@.skip(pos as int), pat@) == count_matches(s@, pat@),
            count <= pos,
        decreases s@.len() - pos,
    {
        let ghost rest = s@.skip(pos as int);
        if pat.len() <= s.len() - pos && match_at_exec(s, pat, pos) {
            proof {
                assert(rest.subrange(0, pat@.len() as int) =~= s@.subrange(
                    pos as int,
                    pos + pat@.len() as int,
                ));
                assert(rest.skip(pat@.len() as int) =~= s@.skip(pos + pat@.len() as int));
                lemma_count_matches_le(s@.skip(pos + pat@.len() as int), pat@);
            }
            count += 1;
            pos += pat.len();
        } else {
            proof {
                if pos + pat@.len() <= s@.len() {
                    assert(rest.subrange(0, pat@.len() as int) =~= s@.subrange(
                        pos as int,
                        pos + pat@.len() as int,
                    ));
                    assert(rest.subrange(0, pat@.len() as int) != pat@);
                } else {
                    assert(rest.len() < pat@.len());
                }
                assert(rest.skip(1) =~= s@.skip(pos + 1));
            }
            pos += 1;
        }
    }
    proof {
        assert(s@.skip(pos as int) =~= s@.skip(s@.len() as int));
    }
    count
}

/// A non-empty pattern cannot occur more often than the text has bytes.
pub proof fn lemma_count_matches_le(s: Seq<u8>, pat: Seq<u8>)
    requires
        pat.len() > 0,
    ensures
        count_matches(s, pat) <= s.len(),
    decreases s.len(),
{
    if s.len() >= pat.len() {
        if s.subrange(0, pat.len() as int) == pat {
            lemma_count_matches_le(s.skip(pat.len() as int), pat);
        } else {
            lemma_count_matches_le(s.skip(1), pat);
        }
    }
}

/// Index of the first occurrence of byte `b` in `s` at or after `from`, or
/// `s.len()` when there is none.
pub fn find_byte_exec(s: &Vec<u8>, b: u8, from: usize) -> (r: usize)
    requires
        from <= s@.len(),
    ensures
        r == find_byte(s@, b, from as int),
        from <= r <= s@.len(),
{
    proof {
        lemma_find_byte_bounds(s@, b, from as int);
    }
    let mut i: usize = from;
    while i < s.len()
        invariant
            from <= i <= s@.len(),
            find_byte(s@, b, from as int) == find_byte(s@, b, i as int),
        decreases s@.len() - i,
    {
        if s[i] == b {
            return i;
        }
        i += 1;
    }
    i
}

/// Index of the first non-whitespace byte at or after `from`.
pub fn skip_ws_exec(s: &Vec<u8>, from: usize) -> (r: usize)
    requires
        from <= s@.len(),
    ensures
        r == skip_ws(s@, from as int),
        from <= r <= s@.len(),
{
    proof {
        lemma_skip_ws_bounds(s@, from as int);
    }
    let mut i: usize = from;
    while i < s.len()
        invariant
            from <= i <= s@.len(),
            skip_ws(s@, from as int) == skip_ws(s@, i as int),
        decreases s@.len() - i,
    {
        let c = s[i];
        if !(c == 32 || c == 9 || c == 10 || c == 11 || c == 12 || c == 13) {
            return i;
        }
        i += 1;
    }
    i
}

/// The last-occurrence index is `-1` or a valid index.
pub proof fn lemma_rfind_byte_bounds(s: Seq<u8>, b: u8)
    ensures
        -1 <= rfind_byte(s, b) < s.len(),
    decreases s.len(),
{
    if s.len() > 0 && s.last() != b {
        lemma_rfind_byte_bounds(s.drop_last(), b);
    }
}

/// Index of the last occurrence of byte `b` in `s`, or `None` when there is
/// none.
pub fn rfind_byte_exec(s: &Vec<u8>, b: u8) -> (r: Option<usize>)
    ensures
        (r is Some) == (rfind_byte(s@, b) >= 0),
        r matches Some(v) ==> v as int == rfind_byte(s@, b) && v < s@.len(),
{
    let mut i: usize = s.len();
    proof {
        assert(s@.take(s@.len() as int) =~= s@);
    }
    while i > 0
        invariant
            0 <= i <= s@.len(),
            rfind_byte(s@, b) == rfind_byte(s@.take(i as int), b),
        decreases i,
    {
        if s[i - 1] == b {
            assert(s@.take(i as int).last() == s@[i - 1]);
            return Some(i - 1);
        }
        proof {
            assert(s@.take(i as int).drop_last() =~= s@.take(i - 1));
        }
        i -= 1;
    }
    proof {
        assert(s@.take(0) =~= Seq::<u8>::empty());
    }
    None
}

/// Index of the last non-whitespace byte at or before `j`, or `None` when
/// every byte up to `j` is whitespace.
pub fn rskip_ws_exec(s: &Vec<u8>, j: usize) -> (r: Option<usize>)
    requires
        j < s@.len(),
    ensures
        (r is Some) == (rskip_ws(s@, j as int) >= 0),
        r matches Some(v) ==> v as int == rskip_ws(s@, j as int) && v <= j,
{
    let mut i: usize = j;
    loop
        invariant
            0 <= i <= j < s@.len(),
            rskip_ws(s@, j as int) == rskip_ws(s@, i as int),
        decreases i,
    {
        if !is_space_byte(s[i]) {
            return Some(i);
        }
        if i == 0 {
            proof {
                assert(rskip_ws(s@, -1) == -1);
            }
            return None;
        }
        i -= 1;
    }
}

/// Index of the first non-word byte at or after `from`.
pub fn skip_word_exec(s: &Vec<u8>, from: usize) -> (r: usize)
    requires
        from <= s@.len(),
    ensures
        r == skip_word(s@, from as int),
        from <= r <= s@.len(),
{
    proof {
        lemma_skip_word_bounds(s@, from as int);
    }
    let mut i: usize = from;
    while i < s.len()
        invariant
            from <= i <= s@.len(),
            skip_word(s@, from as int) == skip_word(s@, i as int),
        decreases s@.len() - i,
    {
        let c = s[i];
        if !((48 <= c && c <= 57) || (65 <= c && c <= 90) || (97 <= c && c <= 122) || c == 95) {
            return i;
        }
        i += 1;
    }
    i
}

/// Whether every byte of the line is whitespace.
pub fn is_blank_exec(l: &Vec<u8>) -> (r: bool)
    ensures
        r == is_blank(l@),
{
    let p = skip_ws_exec(l, 0);
    p == l.len()
}

/// Whether the line, after leading whitespace, starts with `pat`.
pub fn trimmed_starts_with_exec(l: &Vec<u8>, pat: &Vec<u8>) -> (r: bool)
    ensures
        r == trimmed_starts_with(l@, pat@),
{
    let p = skip_ws_exec(l, 0);
    if pat.len() <= l.len() && p <= l.len() - pat.len() {
        match_at_exec(l, pat, p)
    } else {
        false
    }
}

/// Split a file's bytes into its lines, the way `str::lines` splits a string.
pub fn split_lines(s: &Vec<u8>) -> (r: Vec<Vec<u8>>)
    ensures
        r.deep_view() == spec_lines(s@),
        r@.len() <= s@.len(),
{
    let mut r: Vec<Vec<u8>> = Vec::new();
    let mut pos: usize = 0;
    proof {
        assert(s@.skip(0) =~= s@);
        assert(r.deep_view() + spec_lines(s@) =~~= spec_lines(s@));
        lemma_spec_lines_len(s@);
    }
    while pos < s.len()
        invariant
            0 <= pos <= s@.len(),
            s@.len() == s.len(),
            r.deep_view() + spec_lines(s@.skip(pos as int)) == spec_lines(s@),
            r@.len() + spec_lines(s@.skip(pos as int)).len() <= s@.len(),
        decreases s@.len() - pos,
    {
        let ghost rest = s@.skip(pos as int);
        let ghost dv0 = r.deep_view();
        let nl = find_byte_exec(s, 10, pos);
        proof {
            lemma_find_byte_skip(s@, 10, pos as int);
            lemma_find_byte_bounds(rest, 10, 0);
        }
        let ghost fb = find_byte(rest, 10, 0);
        if nl == s.len() {
            // no further newline: the rest is one final line, kept as is
            let line = subvec(s, pos, s.len());
            proof {
                assert(line@ =~= rest);
                assert(fb == rest.len());
                assert(spec_lines(rest) =~= seq![rest]);
            }
            r.push(line);
            pos = s.len();
            proof {
                assert(s@.skip(pos as int) =~= Seq::<u8>::empty());
                assert(r.deep_view() =~~= dv0.push(rest));
                assert(dv0.push(rest) + spec_lines(Seq::<u8>::empty()) =~~= dv0 + seq![rest]);
                assert(dv0 + seq![rest] =~~= dv0 + spec_lines(rest));
            }
        } else {
            let mut line = subvec(s, pos, nl);
            proof {
                assert(0 <= fb < rest.len());
                assert(line@ =~= rest.subrange(0, fb));
            }
            if line.len() > 0 && line[line.len() - 1] == 13 {
                line.pop();
            }
            proof {
                assert(line@ =~= strip_cr(rest.subrange(0, fb)));
                assert(s@.skip(nl + 1) =~= rest.skip(fb + 1));
            }
            r.push(line);
            let ghost lv = line@;
            pos = nl + 1;
            proof {
                assert(spec_lines(rest) =~~= seq![strip_cr(rest.subrange(0, fb))] + spec_lines(
                    rest.skip(fb + 1),
                ));
                assert(r.deep_view() =~~= dv0.push(lv));
                assert(dv0.push(lv) + spec_lines(s@.skip(pos as int)) =~~= dv0 + spec_lines(rest));
            }
        }
    }
    proof {
        assert(s@.skip(pos as int) =~= Seq::<u8>::empty());
        assert(r.deep_view() =~~= r.deep_view() + spec_lines(Seq::<u8>::empty()));
    }
    r
}

/// `find_byte` looked at through `skip`: searching in the suffix is the same
/// search shifted.
pub proof fn lemma_find_byte_skip(s: Seq<u8>, b: u8, pos: int)
    requires
        0 <= pos <= s.len(),
    ensures
        find_byte(s, b, pos) == pos + find_byte(s.skip(pos), b, 0),
{
    lemma_find_byte_skip_general(s, b, pos, pos);
}

proof fn lemma_find_byte_skip_general(s: Seq<u8>, b: u8, pos: int, at: int)
    requires
        0 <= pos <= at <= s.len(),
    ensures
        find_byte(s, b, at) == pos + find_byte(s.skip(pos), b, at - pos),
    decreases s.len() - at,
{
    if at < s.len() {
        assert(s.skip(pos)[at - pos] == s[at]);
        if s[at] != b {
            lemma_find_byte_skip_general(s, b, pos, at + 1);
        }
    }
}

/// The deep view of a vector of byte vectors is, element for element, the
/// view of each element.
pub proof fn lemma_lines_deep_view(lines: &Vec<Vec<u8>>)
    ensures
        lines.deep_view().len() == lines@.len(),
        forall|j: int| 0 <= j < lines@.len() ==> #[trigger] lines.deep_view()[j] == lines@[j]@,
{
    assert forall|j: int| 0 <= j < lines@.len() implies #[trigger] lines.deep_view()[j]
        == lines@[j]@ by {
        assert(lines@[j].deep_view() =~= lines@[j]@);
    }
}

/// A file has no more lines than bytes.
pub proof fn lemma_spec_lines_len(s: Seq<u8>)
    ensures
        spec_lines(s).len() <= s.len(),
    decreases s.len(),
{
    if s.len() > 0 {
        let i = find_byte(s, 10, 0);
        lemma_find_byte_bounds(s, 10, 0);
        if i < s.len() {
            lemma_spec_lines_len(s.skip(i + 1));
        }
    }
}

} // verus!
