//! Clipboard text extraction.
//!
//! A text clipboard buffer is a nul-terminated run of UTF-16 code units or of
//! ANSI bytes. This module takes such a buffer as a plain vector, cuts it at
//! the first nul, decodes the payload leniently, and decides whether the
//! decoded text is substantial enough to forward to the UI.

use vstd::prelude::*;
use vstd::slice::{slice_subrange, slice_to_vec};
use vstd::string::StrSliceExecFns;
use vstd::utf8::encode_utf8;
use crate::bytes::{first_index_u8, lemma_first_index_u8_unique};

verus! {

/// Index of the first nul unit in `s`, or `s.len()` if none occurs.
pub open spec fn first_nul_u16(s: Seq<u16>) -> int
    decreases s.len(),
{
    if s.len() == 0 {
        0
    } else if s[0] == 0 {
        0
    } else {
        1 + first_nul_u16(s.drop_first())
    }
}

/// `first_nul_u16` lies within the sequence, everything before it is
/// non-nul, and it points at a nul unless none occurs.
pub proof fn lemma_first_nul_u16(s: Seq<u16>)
    ensures
        0 <= first_nul_u16(s) <= s.len(),
        forall|j: int| 0 <= j < first_nul_u16(s) ==> s[j] != 0,
        first_nul_u16(s) < s.len() ==> s[first_nul_u16(s)] == 0,
    decreases s.len(),
{
    if s.len() == 0 {
    } else if s[0] == 0 {
    } else {
        lemma_first_nul_u16(s.drop_first());
        assert forall|j: int| 0 <= j < first_nul_u16(s) implies s[j] != 0 by {
            if j > 0 {
                assert(s.drop_first()[j - 1] == s[j]);
            }
        }
        if first_nul_u16(s) < s.len() {
            assert(s.drop_first()[first_nul_u16(s.drop_first())] == s[first_nul_u16(s)]);
        }
    }
}

/// The payload of a nul-terminated wide-character buffer: everything before
/// the first nul unit, or the whole buffer if no nul occurs.
pub open spec fn wide_payload(s: Seq<u16>) -> Seq<u16> {
    s.take(first_nul_u16(s))
}

/// The payload of a nul-terminated byte buffer: everything before the first
/// nul byte, or the whole buffer if no nul occurs.
pub open spec fn ansi_payload(s: Seq<u8>) -> Seq<u8> {
    s.take(first_index_u8(s, 0))
}

/// Cut a wide-character buffer at its first nul unit.
pub fn prefix_before_nul_u16(data: &Vec<u16>) -> (r: Vec<u16>)
    ensures
        r@ == wide_payload(data@),
{
    let n = data.len();
    let mut i: usize = 0;
    while i < n && data[i] != 0
        invariant
            0 <= i <= n,
            n == data@.len(),
            forall|j: int| 0 <= j < i ==> data@[j] != 0,
        decreases n - i,
    {
        i += 1;
    }
    proof {
        lemma_first_nul_u16(data@);
        let f = first_nul_u16(data@);
        if f < i {
            assert(data@[f] != 0);
        }
        if i < f {
            assert(data@[i as int] != 0);
        }
    }
    let r = slice_to_vec(slice_subrange(data.as_slice(), 0, i));
    proof {
        assert(r@ =~= wide_payload(data@));
    }
    r
}

/// Cut a byte buffer at its first nul byte.
pub fn prefix_before_nul_u8(data: &Vec<u8>) -> (r: Vec<u8>)
    ensures
        r@ == ansi_payload(data@),
{
    let n = data.len();
    let mut i: usize = 0;
    while i < n && data[i] != 0
        invariant
            0 <= i <= n,
            n == data@.len(),
            forall|j: int| 0 <= j < i ==> data@[j] != 0,
        decreases n - i,
    {
        i += 1;
    }
    proof {
        lemma_first_index_u8_unique(data@, 0, i as int);
    }
    let r = slice_to_vec(slice_subrange(data.as_slice(), 0, i));
    proof {
        assert(r@ =~= ansi_payload(data@));
    }
    r
}

/// The characters that lenient UTF-16 decoding yields for these code units.
pub uninterp spec fn utf16_lossy_of(units: Seq<u16>) -> Seq<char>;

/// Relies on `String::from_utf16_lossy`: the decoding is a function of the
/// code units alone, and an empty buffer decodes to the empty string.
#[verifier::external_body]
fn decode_utf16_lossy(units: &Vec<u16>) -> (r: String)
    ensures
        r@ == utf16_lossy_of(units@),
        units@.len() == 0 ==> r@.len() == 0,
{
    String::from_utf16_lossy(units.as_slice())
}

/// The characters that lenient UTF-8 decoding yields for these bytes.
pub uninterp spec fn utf8_lossy_of(bytes: Seq<u8>) -> Seq<char>;

/// Relies on `String::from_utf8_lossy`: the decoding is a function of the
/// bytes alone, and an empty buffer decodes to the empty string.
#[verifier::external_body]
fn decode_utf8_lossy(bytes: &Vec<u8>) -> (r: String)
    ensures
        r@ == utf8_lossy_of(bytes@),
        bytes@.len() == 0 ==> r@.len() == 0,
{
    String::from_utf8_lossy(bytes.as_slice()).into_owned()
}

/// Decode a nul-terminated UTF-16 clipboard buffer: cut at the first nul and
/// decode leniently.
pub fn extract_wide_text(units: &Vec<u16>) -> (r: String)
    ensures
        r@ == utf16_lossy_of(wide_payload(units@)),
{
    let payload = prefix_before_nul_u16(units);
    decode_utf16_lossy(&payload)
}

/// Decode a nul-terminated ANSI clipboard buffer: cut at the first nul and
/// decode leniently.
pub fn extract_ansi_text(bytes: &Vec<u8>) -> (r: String)
    ensures
        r@ == utf8_lossy_of(ansi_payload(bytes@)),
{
    let payload = prefix_before_nul_u8(bytes);
    decode_utf8_lossy(&payload)
}

/// Whether `c` carries the Unicode white-space property.
pub open spec fn spec_is_space(c: char) -> bool {
    let n = c as u32;
    n == 0x20 || (0x09 <= n && n <= 0x0d) || n == 0x85 || n == 0xa0 || n == 0x1680 || (0x2000 <= n
        && n <= 0x200a) || n == 0x2028 || n == 0x2029 || n == 0x202f || n == 0x205f || n == 0x3000
}

/// Whether `c` carries the Unicode white-space property.
pub fn is_space(c: char) -> (r: bool)
    ensures
        r == spec_is_space(c),
{
    let n = c as u32;
    n == 0x20 || (0x09 <= n && n <= 0x0d) || n == 0x85 || n == 0xa0 || n == 0x1680 || (0x2000 <= n
        && n <= 0x200a) || n == 0x2028 || n == 0x2029 || n == 0x202f || n == 0x205f || n == 0x3000
}

/// Whether some character of `t` is not white space.
pub fn has_visible_content(t: &str) -> (r: bool)
    ensures
        r == exists|i: int| 0 <= i < t@.len() && !spec_is_space(#[trigger] t@[i]),
{
    let n = t.unicode_len();
    let mut k: usize = 0;
    while k < n
        invariant
            0 <= k <= n,
            n == t@.len(),
            forall|j: int| 0 <= j < k ==> spec_is_space(#[trigger] t@[j]),
        decreases n - k,
    {
        let c = t.get_char(k);
        if !is_space(c) {
            proof {
                assert(!spec_is_space(t@[k as int]));
            }
            return true;
        }
        k += 1;
    }
    false
}

/// Whether decoded clipboard text is worth forwarding to the UI: it holds
/// some non-white-space character and is longer than five bytes in its UTF-8
/// form.
pub open spec fn spec_worth_emitting(s: Seq<char>) -> bool {
    (exists|i: int| 0 <= i < s.len() && !spec_is_space(#[trigger] s[i])) && encode_utf8(s).len()
        > 5
}

/// Whether decoded clipboard text `t` is worth forwarding to the UI.
pub fn text_worth_emitting(t: &String) -> (r: bool)
    ensures
        r == spec_worth_emitting(t@),
{
    let bytes = t.as_str().as_bytes_vec();
    if bytes.len() <= 5 {
        return false;
    }
    has_visible_content(t.as_str())
}

} // verus!
