//! Byte-sequence utilities: searching, splitting into lines and fields,
//! trimming quotes, and reading decimal numbers.
//!
//! These are the primitives behind the process-list parsing and the
//! clipboard-buffer extraction. Each executable function is proved against a
//! spec function that states its result exactly.

use vstd::prelude::*;
use vstd::slice::{slice_subrange, slice_to_vec};

verus! {

/// Index of the first occurrence of `b` in `s`, or `s.len()` if `b` does not
/// occur.
pub open spec fn first_index_u8(s: Seq<u8>, b: u8) -> int
    decreases s.len(),
{
    if s.len() == 0 {
        0
    } else if s[0] == b {
        0
    } else {
        1 + first_index_u8(s.drop_first(), b)
    }
}

/// `first_index_u8` lies within the sequence, everything before it differs
/// from `b`, and it points at `b` unless `b` is absent.
pub proof fn lemma_first_index_u8(s: Seq<u8>, b: u8)
    ensures
        0 <= first_index_u8(s, b) <= s.len(),
        forall|j: int| 0 <= j < first_index_u8(s, b) ==> s[j] != b,
        first_index_u8(s, b) < s.len() ==> s[first_index_u8(s, b)] == b,
    decreases s.len(),
{
    if s.len() == 0 {
    } else if s[0] == b {
    } else {
        lemma_first_index_u8(s.drop_first(), b);
        assert forall|j: int| 0 <= j < first_index_u8(s, b) implies s[j] != b by {
            if j > 0 {
                assert(s.drop_first()[j - 1] == s[j]);
            }
        }
        if first_index_u8(s, b) < s.len() {
            assert(s.drop_first()[first_index_u8(s.drop_first(), b)] == s[first_index_u8(s, b)]);
        }
    }
}

/// Any position whose prefix is free of `b`, and which holds `b` or is the
/// end, is `first_index_u8`.
pub proof fn lemma_first_index_u8_unique(s: Seq<u8>, b: u8, i: int)
    requires
        0 <= i <= s.len(),
        forall|j: int| 0 <= j < i ==> s[j] != b,
        i < s.len() ==> s[i] == b,
    ensures
        first_index_u8(s, b) == i,
{
    lemma_first_index_u8(s, b);
    let f = first_index_u8(s, b);
    if f < i {
        assert(s[f] != b);
    }
    if i < f {
        assert(s[i] != b);
    }
}

/// Index of the first occurrence of `sep` in `v`, or `v.len()` if absent.
pub fn find_byte(v: &Vec<u8>, sep: u8) -> (i: usize)
    ensures
        i as int == first_index_u8(v@, sep),
{
    let n = v.len();
    let mut i: usize = 0;
    while i < n && v[i] != sep
        invariant
            0 <= i <= n,
            n == v@.len(),
            forall|j: int| 0 <= j < i ==> v@[j] != sep,
        decreases n - i,
    {
        i += 1;
    }
    proof {
        lemma_first_index_u8_unique(v@, sep, i as int);
    }
    i
}

/// Split `s` at every occurrence of `sep`: `n` separators give `n + 1`
/// pieces, none of which holds `sep`.
pub open spec fn split_on(s: Seq<u8>, sep: u8) -> Seq<Seq<u8>>
    decreases s.len(),
{
    let i = first_index_u8(s, sep);
    if 0 <= i < s.len() {
        seq![s.take(i)] + split_on(s.skip(i + 1), sep)
    } else {
        seq![s]
    }
}

/// A split always yields at least one piece.
pub proof fn lemma_split_on_nonempty(s: Seq<u8>, sep: u8)
    ensures
        split_on(s, sep).len() >= 1,
{
    let i = first_index_u8(s, sep);
    if 0 <= i < s.len() {
    } else {
    }
}

/// Split `v` at every occurrence of `sep`.
pub fn split_bytes(v: &Vec<u8>, sep: u8) -> (parts: Vec<Vec<u8>>)
    ensures
        parts@.map_values(|p: Vec<u8>| p@) == split_on(v@, sep),
    decreases v@.len(),
{
    let i = find_byte(v, sep);
    proof {
        lemma_first_index_u8(v@, sep);
    }
    if i == v.len() {
        let whole = slice_to_vec(v.as_slice());
        let mut parts: Vec<Vec<u8>> = Vec::new();
        parts.push(whole);
        proof {
            assert(parts@.map_values(|p: Vec<u8>| p@) =~~= seq![v@]);
        }
        parts
    } else {
        let head = slice_to_vec(slice_subrange(v.as_slice(), 0, i));
        let tail = slice_to_vec(slice_subrange(v.as_slice(), i + 1, v.len()));
        proof {
            assert(tail@ =~= v@.skip(i + 1));
            assert(head@ =~= v@.take(i as int));
        }
        let mut parts = split_bytes(&tail, sep);
        parts.insert(0, head);
        proof {
            assert(parts@.map_values(|p: Vec<u8>| p@) =~~= seq![v@.take(i as int)] + split_on(
                v@.skip(i + 1),
                sep,
            ));
        }
        parts
    }
}

/// Drop one trailing carriage return, if the sequence ends in one.
pub open spec fn strip_cr(l: Seq<u8>) -> Seq<u8> {
    if l.len() > 0 && l.last() == 13 {
        l.drop_last()
    } else {
        l
    }
}

/// Drop one trailing carriage return, if the buffer ends in one.
pub fn strip_cr_exec(l: &Vec<u8>) -> (r: Vec<u8>)
    ensures
        r@ == strip_cr(l@),
{
    if l.len() > 0 && l[l.len() - 1] == 13 {
        let r = slice_to_vec(slice_subrange(l.as_slice(), 0, l.len() - 1));
        proof {
            assert(r@ =~= l@.drop_last());
        }
        r
    } else {
        slice_to_vec(l.as_slice())
    }
}

/// The lines of `s`: pieces between newline bytes, each stripped of one
/// carriage return before the newline. A final piece without a terminating
/// newline is kept as it stands; a terminating newline yields no empty final
/// line.
pub open spec fn spec_lines(s: Seq<u8>) -> Seq<Seq<u8>> {
    if s.len() == 0 {
        Seq::empty()
    } else {
        let p = split_on(s, 10);
        if p.last().len() == 0 {
            p.drop_last().map_values(|l: Seq<u8>| strip_cr(l))
        } else {
            p.drop_last().map_values(|l: Seq<u8>| strip_cr(l)).push(p.last())
        }
    }
}

/// The lines of `v`, as [`spec_lines`] states them.
pub fn lines_of(v: &Vec<u8>) -> (lines: Vec<Vec<u8>>)
    ensures
        lines@.map_values(|l: Vec<u8>| l@) == spec_lines(v@),
{
    if v.len() == 0 {
        let lines: Vec<Vec<u8>> = Vec::new();
        proof {
            assert(lines@.map_values(|l: Vec<u8>| l@) =~~= spec_lines(v@));
        }
        return lines;
    }
    let parts = split_bytes(v, 10);
    proof {
        lemma_split_on_nonempty(v@, 10);
    }
    let ghost p: Seq<Seq<u8>> = split_on(v@, 10);
    proof {
        assert(parts@.len() == p.len());
    }
    let last_empty = parts[parts.len() - 1].len() == 0;
    let stripped_count = parts.len() - 1;
    let mut lines: Vec<Vec<u8>> = Vec::new();
    let mut k: usize = 0;
    while k < stripped_count
        invariant
            0 <= k <= stripped_count,
            stripped_count == p.len() - 1,
            parts@.map_values(|l: Vec<u8>| l@) == p,
            parts@.len() == p.len(),
            lines@.len() == k,
            forall|j: int| 0 <= j < k ==> #[trigger] lines@[j]@ == strip_cr(p[j]),
        decreases stripped_count - k,
    {
        proof {
            assert(parts@.map_values(|l: Vec<u8>| l@)[k as int] == parts@[k as int]@);
        }
        let s = strip_cr_exec(&parts[k]);
        lines.push(s);
        k += 1;
    }
    if !last_empty {
        proof {
            assert(parts@.map_values(|l: Vec<u8>| l@)[p.len() - 1] == parts@[p.len() - 1]@);
        }
        let last = slice_to_vec(parts[parts.len() - 1].as_slice());
        lines.push(last);
        proof {
            assert(p.last().len() != 0);
            assert(lines@.map_values(|l: Vec<u8>| l@) =~~= p.drop_last().map_values(
                |l: Seq<u8>| strip_cr(l),
            ).push(p.last()));
        }
    } else {
        proof {
            assert(parts@.map_values(|l: Vec<u8>| l@)[p.len() - 1] == parts@[p.len() - 1]@);
            assert(p.last().len() == 0);
            assert(lines@.map_values(|l: Vec<u8>| l@) =~~= p.drop_last().map_values(
                |l: Seq<u8>| strip_cr(l),
            ));
        }
    }
    lines
}

/// Whether `needle` occurs contiguously inside `hay`.
pub open spec fn contains_seq(hay: Seq<u8>, needle: Seq<u8>) -> bool {
    exists|i: int|
        0 <= i && i + needle.len() <= hay.len() && #[trigger] hay.subrange(i, i + needle.len())
            == needle
}

/// Whether `needle` occurs at position `i` of `hay`.
fn match_at(hay: &Vec<u8>, i: usize, needle: &Vec<u8>) -> (r: bool)
    requires
        i + needle@.len() <= hay@.len(),
    ensures
        r == (hay@.subrange(i as int, i + needle@.len()) == needle@),
{
    let n = needle.len();
    let h = hay.len();
    let mut j: usize = 0;
    while j < n
        invariant
            0 <= j <= n,
            n == needle@.len(),
            h == hay@.len(),
            i + n <= h,
            forall|k: int| 0 <= k < j ==> hay@[i + k] == needle@[k],
        decreases n - j,
    {
        if hay[i + j] != needle[j] {
            proof {
                assert(hay@.subrange(i as int, i + needle@.len())[j as int] == hay@[i + j]);
            }
            return false;
        }
        j += 1;
    }
    proof {
        assert(hay@.subrange(i as int, i + needle@.len()) =~= needle@);
    }
    true
}

/// Whether `needle` occurs contiguously inside `hay`.
pub fn contains_bytes(hay: &Vec<u8>, needle: &Vec<u8>) -> (r: bool)
    ensures
        r == contains_seq(hay@, needle@),
{
    if needle.len() > hay.len() {
        return false;
    }
    if needle.len() == 0 {
        proof {
            assert(hay@.subrange(0, 0 + needle@.len() as int) =~= needle@);
            assert(contains_seq(hay@, needle@));
        }
        return true;
    }
    let h = hay.len();
    let nl = needle.len();
    let bound = h - nl;
    let mut i: usize = 0;
    while i <= bound
        invariant
            0 <= i <= bound + 1,
            h == hay@.len(),
            nl == needle@.len(),
            nl >= 1,
            bound == h - nl,
            forall|k: int|
                0 <= k < i ==> #[trigger] hay@.subrange(k, k + needle@.len()) != needle@,
        decreases bound + 1 - i,
    {
        if match_at(hay, i, needle) {
            return true;
        }
        i += 1;
    }
    false
}

/// Drop every leading and trailing quote byte (`"`).
pub open spec fn trim_quotes(f: Seq<u8>) -> Seq<u8>
    decreases f.len(),
{
    if f.len() > 0 && f[0] == 34 {
        trim_quotes(f.drop_first())
    } else if f.len() > 0 && f.last() == 34 {
        trim_quotes(f.drop_last())
    } else {
        f
    }
}

/// Drop every leading and trailing quote byte (`"`).
pub fn trim_quotes_exec(f: &Vec<u8>) -> (r: Vec<u8>)
    ensures
        r@ == trim_quotes(f@),
    decreases f@.len(),
{
    if f.len() > 0 && f[0] == 34 {
        let t = slice_to_vec(slice_subrange(f.as_slice(), 1, f.len()));
        proof {
            assert(t@ =~= f@.drop_first());
        }
        trim_quotes_exec(&t)
    } else if f.len() > 0 && f[f.len() - 1] == 34 {
        let t = slice_to_vec(slice_subrange(f.as_slice(), 0, f.len() - 1));
        proof {
            assert(t@ =~= f@.drop_last());
        }
        trim_quotes_exec(&t)
    } else {
        slice_to_vec(f.as_slice())
    }
}

/// Whether `b` is an ASCII decimal digit.
pub open spec fn is_digit(b: u8) -> bool {
    48 <= b <= 57
}

/// The numeric value of a digit byte; zero for anything else.
pub open spec fn digit_of(b: u8) -> nat {
    if is_digit(b) {
        (b - 48) as nat
    } else {
        0
    }
}

/// The number written by `f` in decimal, reading every non-digit as zero.
pub open spec fn digits_val(f: Seq<u8>) -> nat
    decreases f.len(),
{
    if f.len() == 0 {
        0
    } else {
        digits_val(f.drop_last()) * 10 + digit_of(f.last())
    }
}

/// A longer run of bytes never writes a smaller number.
pub proof fn lemma_digits_val_mono(f: Seq<u8>, i: int)
    requires
        0 <= i <= f.len(),
    ensures
        digits_val(f) >= digits_val(f.take(i)),
    decreases f.len(),
{
    if i == f.len() {
        assert(f.take(i) =~= f);
    } else {
        lemma_digits_val_mono(f.drop_last(), i);
        assert(f.drop_last().take(i) =~= f.take(i));
    }
}

/// Whether `f` is a non-empty run of digits whose value fits in a `u32`.
pub open spec fn is_u32_digits(f: Seq<u8>) -> bool {
    f.len() > 0 && (forall|i: int| 0 <= i < f.len() ==> is_digit(f[i])) && digits_val(f)
        <= u32::MAX
}

/// Read `f` as a decimal `u32`: `Some` exactly when `f` is a non-empty run of
/// digits whose value fits.
pub fn parse_u32(f: &Vec<u8>) -> (r: Option<u32>)
    ensures
        is_u32_digits(f@) ==> r == Some(digits_val(f@) as u32),
        !is_u32_digits(f@) ==> r is None,
{
    let n = f.len();
    if n == 0 {
        return None;
    }
    let mut acc: u64 = 0;
    let mut i: usize = 0;
    while i < n
        invariant
            0 <= i <= n,
            n == f@.len(),
            forall|j: int| 0 <= j < i ==> is_digit(f@[j]),
            acc == digits_val(f@.take(i as int)),
            acc <= u32::MAX,
        decreases n - i,
    {
        let b = f[i];
        if b < 48 || b > 57 {
            return None;
        }
        let next: u64 = acc * 10 + ((b - 48) as u64);
        proof {
            assert(f@.take(i + 1).drop_last() =~= f@.take(i as int));
            assert(f@.take(i + 1).last() == f@[i as int]);
        }
        if next > u32::MAX as u64 {
            proof {
                lemma_digits_val_mono(f@, i + 1);
            }
            return None;
        }
        acc = next;
        i += 1;
    }
    proof {
        assert(f@.take(n as int) =~= f@);
    }
    Some(acc as u32)
}

} // verus!
