//! Texts on their way between host and guest: C strings, paths and
//! hexadecimal numbers.

use vstd::prelude::*;
use vstd::slice::slice_subrange;
use vstd::string::{StrSliceExecFns, StringExecFns, StringSliceAdditionalSpecFns};
use vstd::utf8::{decode_utf8, encode_utf8_decode_utf8, valid_utf8};
use crate::errors::{VmError, VmErrorView};

verus! {

/// Whether two strings hold the same characters.
pub fn str_equal(a: &str, b: &str) -> (r: bool)
    ensures
        r == (a@ == b@),
{
    let left = a.as_bytes();
    let right = b.as_bytes();
    proof {
        encode_utf8_decode_utf8(a@);
        encode_utf8_decode_utf8(b@);
    }
    if left.len() != right.len() {
        return false;
    }
    let mut i: usize = 0;
    while i < left.len()
        invariant
            i <= left.len(),
            left.len() == right.len(),
            left@ == a.spec_bytes(),
            right@ == b.spec_bytes(),
            forall|j: int| 0 <= j < i ==> left@[j] == right@[j],
        decreases left.len() - i,
    {
        if left[i] != right[i] {
            return false;
        }
        i = i + 1;
    }
    assert(left@ =~= right@);
    true
}

/// `i` is the position of the first zero byte of `bytes`.
pub open spec fn is_first_nul(bytes: Seq<u8>, i: int) -> bool {
    &&& 0 <= i < bytes.len()
    &&& bytes[i] == 0
    &&& forall|j: int| 0 <= j < i ==> bytes[j] != 0
}

/// The position of the first zero byte of `bytes`, if it holds one.
pub open spec fn first_nul(bytes: Seq<u8>) -> Option<int> {
    if exists|i: int| is_first_nul(bytes, i) {
        Some(choose|i: int| is_first_nul(bytes, i))
    } else {
        None
    }
}

pub proof fn lemma_first_nul_found(bytes: Seq<u8>, i: int)
    requires
        is_first_nul(bytes, i),
    ensures
        first_nul(bytes) == Some(i),
{
    let k = choose|k: int| is_first_nul(bytes, k);
    if k < i {
        assert(bytes[k] != 0);
    }
    if i < k {
        assert(bytes[i] != 0);
    }
}

pub proof fn lemma_first_nul_missing(bytes: Seq<u8>)
    requires
        forall|j: int| 0 <= j < bytes.len() ==> bytes[j] != 0,
    ensures
        first_nul(bytes) is None,
{
    if exists|i: int| is_first_nul(bytes, i) {
        let k = choose|k: int| is_first_nul(bytes, k);
        assert(bytes[k] != 0);
    }
}

/// Finds the first zero byte.
pub fn find_nul(bytes: &[u8]) -> (r: Option<usize>)
    ensures
        match r {
            Some(i) => first_nul(bytes@) == Some(i as int),
            None => first_nul(bytes@) is None,
        },
{
    let mut i: usize = 0;
    while i < bytes.len()
        invariant
            i <= bytes@.len(),
            forall|j: int| 0 <= j < i ==> bytes@[j] != 0,
        decreases bytes.len() - i,
    {
        if bytes[i] == 0 {
            proof {
                lemma_first_nul_found(bytes@, i as int);
            }
            return Some(i);
        }
        i = i + 1;
    }
    proof {
        lemma_first_nul_missing(bytes@);
    }
    None
}

/// The text that `String::from_utf8_lossy` makes of a byte sequence.
pub uninterp spec fn utf8_lossy(bytes: Seq<u8>) -> Seq<char>;

/// Calls `String::from_utf8_lossy`, which decodes UTF-8 and puts U+FFFD in
/// place of what is not UTF-8. The contract names the result, and says that
/// bytes that are valid UTF-8 decode to the text they encode.
#[verifier::external_body]
pub(crate) fn string_from_utf8_lossy(bytes: &[u8]) -> (r: String)
    ensures
        r@ == utf8_lossy(bytes@),
        valid_utf8(bytes@) ==> r@ == decode_utf8(bytes@),
{
    String::from_utf8_lossy(bytes).into_owned()
}

/// The text of the C string at the start of `bytes`: what stands before the
/// first zero byte, decoded leniently.
pub open spec fn c_string_text(bytes: Seq<u8>) -> Option<Seq<char>> {
    match first_nul(bytes) {
        Some(end) => Some(utf8_lossy(bytes.subrange(0, end))),
        None => None,
    }
}

/// Reads a C string out of `bytes`, which were read from guest memory at
/// `address`. Fails where `bytes` hold no terminator.
pub fn read_c_string(bytes: &[u8], address: u64) -> (r: Result<String, VmError>)
    ensures
        match c_string_text(bytes@) {
            Some(text) => (r matches Ok(s) && s@ == text),
            None => (r matches Err(e) && e@ == VmErrorView::UnterminatedCString(address)),
        },
        r matches Ok(s) ==> valid_utf8(bytes@.subrange(0, first_nul(bytes@)->Some_0)) ==> s@
            == decode_utf8(bytes@.subrange(0, first_nul(bytes@)->Some_0)),
{
    match find_nul(bytes) {
        Some(end) => Ok(string_from_utf8_lossy(slice_subrange(bytes, 0, end))),
        None => Err(VmError::UnterminatedCString(address)),
    }
}

/// The bytes of a C string: the UTF-8 encoding of the text and a zero byte.
pub open spec fn c_string_bytes(text: Seq<char>) -> Seq<u8> {
    vstd::utf8::encode_utf8(text).push(0)
}

/// Encodes a text as a C string.
pub fn to_c_string(text: &str) -> (r: Vec<u8>)
    ensures
        r@ == c_string_bytes(text@),
{
    let mut bytes: Vec<u8> = Vec::new();
    bytes.extend_from_slice(text.as_bytes());
    assert forall|i: int| 0 <= i < bytes@.len() implies bytes@[i] == text.spec_bytes()[i] by {
        assert(cloned::<u8>(text.spec_bytes()[i], bytes@[i]));
    }
    assert(bytes@ =~= text.spec_bytes());
    bytes.push(0);
    bytes
}

/// `i` is the position of the last `/` of `text`.
pub open spec fn is_last_slash(text: Seq<char>, i: int) -> bool {
    &&& 0 <= i < text.len()
    &&& text[i] == '/'
    &&& forall|j: int| i < j < text.len() ==> text[j] != '/'
}

/// What follows the last `/` of a path; the whole path where it holds none.
pub open spec fn basename(path: Seq<char>) -> Seq<char> {
    if exists|i: int| is_last_slash(path, i) {
        path.subrange((choose|i: int| is_last_slash(path, i)) + 1, path.len() as int)
    } else {
        path
    }
}

/// The part of a path after its last `/`.
pub fn path_basename(path: &str) -> (r: String)
    ensures
        r@ == basename(path@),
{
    let length = path.unicode_len();
    let mut start: usize = 0;
    let mut i: usize = 0;
    while i < length
        invariant
            i <= length,
            length == path@.len(),
            start <= i,
            start == 0 ==> forall|j: int| 0 <= j < i ==> path@[j] != '/',
            start > 0 ==> path@[start - 1] == '/' && forall|j: int|
                start <= j < i ==> path@[j] != '/',
        decreases length - i,
    {
        if path.get_char(i) == '/' {
            start = i + 1;
        }
        i = i + 1;
    }
    proof {
        if start > 0 {
            assert(is_last_slash(path@, start - 1));
            let k = choose|k: int| is_last_slash(path@, k);
            if k < start - 1 {
                assert(path@[start - 1] != '/');
            }
            if start - 1 < k {
                assert(path@[k] != '/');
            }
        } else {
            if exists|k: int| is_last_slash(path@, k) {
                let k = choose|k: int| is_last_slash(path@, k);
                assert(path@[k] != '/');
            }
            assert(path@.subrange(0, length as int) =~= path@);
        }
    }
    path.substring_char(start, length).to_owned()
}

/// The hexadecimal digit of a value below 16, in the case asked for.
pub open spec fn hex_digit(digit: int, upper: bool) -> char {
    if upper {
        "0123456789ABCDEF"@[digit]
    } else {
        "0123456789abcdef"@[digit]
    }
}

/// Two hexadecimal digits for each byte, the high one first.
pub open spec fn hex_text_of(bytes: Seq<u8>, upper: bool) -> Seq<char> {
    Seq::new(
        2 * bytes.len(),
        |i: int|
            if i % 2 == 0 {
                hex_digit(bytes[i / 2] as int / 16, upper)
            } else {
                hex_digit(bytes[i / 2] as int % 16, upper)
            },
    )
}

/// Two lower-case hexadecimal digits for each byte, the high one first.
pub open spec fn hex_text(bytes: Seq<u8>) -> Seq<char> {
    hex_text_of(bytes, false)
}

fn hex_digit_text(digit: u8, upper: bool) -> (r: &'static str)
    requires
        digit < 16,
    ensures
        r@ == seq![hex_digit(digit as int, upper)],
{
    proof {
        reveal_strlit("0123456789ABCDEF");
        reveal_strlit("0123456789abcdef");
    }
    let digits = if upper {
        "0123456789ABCDEF"
    } else {
        "0123456789abcdef"
    };
    let text = digits.substring_ascii(digit as usize, digit as usize + 1);
    assert(text@ =~= seq![hex_digit(digit as int, upper)]);
    text
}

/// Writes bytes as hexadecimal text, in upper or in lower case.
pub fn bytes_to_hex_cased(bytes: &[u8], upper: bool) -> (r: String)
    ensures
        r@ == hex_text_of(bytes@, upper),
{
    let mut out = String::new();
    let mut i: usize = 0;
    while i < bytes.len()
        invariant
            i <= bytes@.len(),
            out@ == hex_text_of(bytes@.subrange(0, i as int), upper),
        decreases bytes.len() - i,
    {
        let byte = bytes[i];
        let ghost before = out@;
        out.append(hex_digit_text(byte / 16, upper));
        out.append(hex_digit_text(byte % 16, upper));
        proof {
            let shorter = bytes@.subrange(0, i as int);
            let longer = bytes@.subrange(0, i + 1);
            assert(out@ =~= hex_text_of(longer, upper)) by {
                assert(out@.len() == 2 * longer.len());
                assert forall|k: int| 0 <= k < out@.len() implies out@[k] == hex_text_of(
                    longer,
                    upper,
                )[k] by {
                    if k < 2 * i {
                        assert(out@[k] == before[k]);
                        assert(shorter[k / 2] == longer[k / 2]);
                    }
                }
            }
        }
        i = i + 1;
    }
    assert(bytes@.subrange(0, i as int) =~= bytes@);
    out
}

/// Writes bytes as lower-case hexadecimal text.
pub fn bytes_to_hex(bytes: &[u8]) -> (r: String)
    ensures
        r@ == hex_text(bytes@),
{
    bytes_to_hex_cased(bytes, false)
}

/// The upper-case hexadecimal digits of a number, the highest first, without
/// leading zeros.
pub open spec fn upper_hex_text(value: nat) -> Seq<char>
    decreases value,
{
    if value < 16 {
        seq![hex_digit(value as int, true)]
    } else {
        upper_hex_text(value / 16).push(hex_digit((value % 16) as int, true))
    }
}

/// Writes a number in upper-case hexadecimal.
pub fn u64_to_upper_hex(value: u64) -> (r: String)
    ensures
        r@ == upper_hex_text(value as nat),
{
    let mut shift: u32 = 0;
    while shift < 60 && (value >> (shift + 4)) != 0
        invariant
            shift <= 60,
            shift % 4 == 0,
            shift > 0 ==> (value >> shift) != 0,
        decreases 60 - shift,
    {
        shift = shift + 4;
    }
    let mut out = String::new();
    let top = value >> shift;
    assert(top < 16) by {
        if shift < 60 {
            let s = shift;
            assert((value >> (s + 4) as u32) == 0 ==> (value >> s) < 16) by (bit_vector)
                requires
                    s < 60,
            ;
        } else {
            assert(value >> 60u32 < 16) by (bit_vector);
        }
    }
    out.append(hex_digit_text(top as u8, true));
    assert(out@ =~= upper_hex_text(top as nat));
    while shift > 0
        invariant
            shift <= 60,
            shift % 4 == 0,
            out@ == upper_hex_text((value >> shift) as nat),
            shift > 0 ==> (value >> shift) != 0,
        decreases shift,
    {
        let ghost higher = value >> shift;
        shift = shift - 4;
        let rest = value >> shift;
        proof {
            let s = shift;
            assert((value >> s) & 0xF == (value >> s) % 16 && (value >> s) / 16 == value >> (
            s + 4) as u32 && (value >> s) & 0xF < 16) by (bit_vector)
                requires
                    s <= 56,
            ;
            assert((value >> (s + 4) as u32) != 0 ==> (value >> s) >= 16) by (bit_vector)
                requires
                    s <= 56,
            ;
        }
        let digit = (rest & 0xF) as u8;
        out.append(hex_digit_text(digit, true));
        assert(out@ =~= upper_hex_text(rest as nat));
    }
    assert(value >> 0u32 == value) by (bit_vector);
    out
}

/// The text that `str::trim` leaves of a text.
pub uninterp spec fn trimmed(text: Seq<char>) -> Seq<char>;

/// Calls `str::trim`, which removes the white space at both ends of a text.
/// The contract names the result.
#[verifier::external_body]
pub(crate) fn trim_text(text: &str) -> (r: &str)
    ensures
        r@ == trimmed(text@),
{
    text.trim()
}

/// A text without the slashes that directly follow a slash.
pub open spec fn collapsed_slashes(text: Seq<char>) -> Seq<char>
    decreases text.len(),
{
    if text.len() == 0 {
        text
    } else if text.len() >= 2 && text[text.len() - 1] == '/' && text[text.len() - 2] == '/' {
        collapsed_slashes(text.drop_last())
    } else {
        collapsed_slashes(text.drop_last()).push(text.last())
    }
}

/// A text without its last character, where that is a slash that is not the
/// whole text.
pub open spec fn without_trailing_slash(text: Seq<char>) -> Seq<char> {
    if text.len() > 1 && text.last() == '/' {
        text.drop_last()
    } else {
        text
    }
}

/// The normal form of the path of the library directory: without white space
/// around it, without repeated slashes, and without a slash at its end, unless
/// the path is that slash alone.
pub open spec fn normalized_root(path: Seq<char>) -> Seq<char> {
    without_trailing_slash(collapsed_slashes(trimmed(path)))
}

/// Brings the path of the library directory into its normal form.
pub fn normalize_library_root(path: &str) -> (r: String)
    ensures
        r@ == normalized_root(path@),
{
    let text = trim_text(path);
    let length = text.unicode_len();
    let mut out = String::new();
    let mut kept: usize = 0;
    let mut ends_with_slash = false;
    let mut i: usize = 0;
    while i < length
        invariant
            i <= length,
            length == text@.len(),
            out@ == collapsed_slashes(text@.subrange(0, i as int)),
            kept == out@.len(),
            kept <= i,
            ends_with_slash == (i > 0 && text@[i - 1] == '/'),
            ends_with_slash == (out@.len() > 0 && out@.last() == '/'),
        decreases length - i,
    {
        let c = text.get_char(i);
        let ghost shorter = text@.subrange(0, i as int);
        let ghost longer = text@.subrange(0, i + 1);
        proof {
            assert(longer.drop_last() =~= shorter);
            assert(longer.last() == c);
            if i > 0 {
                assert(longer[longer.len() - 2] == text@[i - 1]);
            }
        }
        if c == '/' && ends_with_slash {
        } else {
            out.append(text.substring_char(i, i + 1));
            assert(text@.subrange(i as int, i + 1) =~= seq![c]);
            assert(out@ =~= collapsed_slashes(shorter).push(c));
            kept = kept + 1;
        }
        ends_with_slash = c == '/';
        i = i + 1;
    }
    assert(text@.subrange(0, length as int) =~= text@);
    if kept > 1 && ends_with_slash {
        let whole = out.as_str();
        let shortened = whole.substring_char(0, kept - 1).to_owned();
        assert(whole@.subrange(0, kept - 1) =~= whole@.drop_last());
        return shortened;
    }
    out
}

} // verus!
