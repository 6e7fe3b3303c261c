//! Address arithmetic and byte buffers.

use vstd::prelude::*;
use crate::errors::VmError;

verus! {

/// `value` rounded up by the mask `align - 1`; `value` itself when `align` is 0.
pub open spec fn align_up_spec(value: u64, align: u64) -> u64 {
    if align == 0 {
        value
    } else {
        ((value + align - 1) as u64) & !((align - 1) as u64)
    }
}

/// `value` with the bits of the mask `align - 1` cleared; `value` itself when
/// `align` is 0.
pub open spec fn align_down_spec(value: u64, align: u64) -> u64 {
    if align == 0 {
        value
    } else {
        value & !((align - 1) as u64)
    }
}

/// Rounds `value` up to a multiple of `align`, a power of two. The sum of the
/// two must stay within 64 bits.
pub fn align_up(value: u64, align: u64) -> (r: u64)
    requires
        value + align <= u64::MAX + 1,
    ensures
        r == align_up_spec(value, align),
{
    if align == 0 {
        return value;
    }
    (value + (align - 1)) & !(align - 1)
}

/// Rounds `value` down to a multiple of `align`, a power of two.
pub fn align_down(value: u64, align: u64) -> (r: u64)
    ensures
        r == align_down_spec(value, align),
{
    if align == 0 {
        return value;
    }
    value & !(align - 1)
}

/// Whether `align` is a power of two.
pub open spec fn is_power_of_two(align: u64) -> bool {
    align != 0 && align & ((align - 1) as u64) == 0
}

/// For a power of two, rounding up gives the nearest value at or above that
/// has none of the bits below `align` set, and rounding down the nearest at or
/// below: the multiples of `align`.
pub proof fn lemma_align_power_of_two(value: u64, align: u64)
    requires
        is_power_of_two(align),
        value + align <= u64::MAX + 1,
    ensures
        align_up_spec(value, align) & ((align - 1) as u64) == 0,
        value <= align_up_spec(value, align) < value + align,
        align_down_spec(value, align) & ((align - 1) as u64) == 0,
        align_down_spec(value, align) <= value < align_down_spec(value, align) + align,
{
    let mask: u64 = (align - 1) as u64;
    let sum: u64 = (value + align - 1) as u64;
    assert(align & mask == 0 && align != 0 && mask == align - 1 && sum >= mask ==> (sum & !mask)
        & mask == 0 && (sum & !mask) <= sum && sum - (sum & !mask) <= mask && (sum & !mask) >= sum
        - mask && (value & !mask) & mask == 0 && (value & !mask) <= value && value - (value
        & !mask) <= mask) by (bit_vector);
}

/// Rounding up to a page is rounding up to the next multiple of 4096.
pub proof fn lemma_align_up_page(value: u64)
    requires
        value + 0xFFF <= u64::MAX,
    ensures
        align_up_spec(value, 0x1000) as int == ((value + 0xFFF) / 0x1000) * 0x1000,
        align_up_spec(value, 0x1000) % 0x1000 == 0,
        value <= align_up_spec(value, 0x1000) < value + 0x1000,
{
    let w: u64 = (value + 0xFFF) as u64;
    assert(w & !0xFFFu64 == (w / 0x1000) * 0x1000) by (bit_vector);
    assert((w & !0xFFFu64) % 0x1000 == 0) by (bit_vector);
    assert((0x1000u64 - 1) as u64 == 0xFFFu64);
}

/// Rounding down to a page is rounding down to a multiple of 4096.
pub proof fn lemma_align_down_page(value: u64)
    ensures
        align_down_spec(value, 0x1000) as int == (value / 0x1000) * 0x1000,
        align_down_spec(value, 0x1000) % 0x1000 == 0,
        align_down_spec(value, 0x1000) <= value < align_down_spec(value, 0x1000) + 0x1000,
{
    assert(value & !0xFFFu64 == (value / 0x1000) * 0x1000) by (bit_vector);
    assert((value & !0xFFFu64) % 0x1000 == 0) by (bit_vector);
    assert((0x1000u64 - 1) as u64 == 0xFFFu64);
}

/// `base + addend` modulo 2^64.
pub open spec fn add_i64_spec(base: u64, addend: i64) -> u64 {
    ((base + addend) % 0x1_0000_0000_0000_0000) as u64
}

/// Adds a signed number to an address, wrapping around at 2^64.
pub fn add_i64(base: u64, addend: i64) -> (r: u64)
    ensures
        r == add_i64_spec(base, addend),
{
    if addend >= 0 {
        base.wrapping_add(addend as u64)
    } else if addend == i64::MIN {
        base.wrapping_sub(0x8000_0000_0000_0000u64)
    } else {
        base.wrapping_sub((-addend) as u64)
    }
}

/// Converts a 64-bit number to a `usize`, or fails where it does not fit.
pub fn as_usize(value: u64) -> (r: Result<usize, VmError>)
    ensures
        value <= usize::MAX ==> r == Ok::<usize, VmError>(value as usize),
        value > usize::MAX ==> r == Err::<usize, VmError>(VmError::IntegerOverflow(value)),
{
    if value <= usize::MAX as u64 {
        Ok(value as usize)
    } else {
        Err(VmError::IntegerOverflow(value))
    }
}

/// `total` bytes: `body` from position `lead` on, and `fill` everywhere else.
pub open spec fn padded(lead: int, body: Seq<u8>, total: int, fill: u8) -> Seq<u8> {
    Seq::new(
        total as nat,
        |i: int|
            if lead <= i < lead + body.len() {
                body[i - lead]
            } else {
                fill
            },
    )
}

/// Lays `body` out in a buffer of `total` bytes, `lead` bytes from its start,
/// and fills the rest with `fill`.
pub fn padded_bytes(lead: usize, body: &[u8], total: usize, fill: u8) -> (r: Vec<u8>)
    requires
        lead + body@.len() <= total,
    ensures
        r@ == padded(lead as int, body@, total as int, fill),
{
    let mut out: Vec<u8> = Vec::new();
    out.resize(lead, fill);
    let ghost head = out@;
    assert(head.len() == lead);
    assert forall|i: int| 0 <= i < lead implies head[i] == fill by {
        assert(cloned::<u8>(fill, head[i]));
    }
    out.extend_from_slice(body);
    let ghost middle = out@;
    assert forall|i: int| 0 <= i < lead + body@.len() implies middle[i] == (if i < lead {
        fill
    } else {
        body@[i - lead]
    }) by {
        if i < lead {
            assert(middle[i] == head[i]);
        } else {
            assert(cloned::<u8>(body@[i - lead], middle[i]));
        }
    }
    out.resize(total, fill);
    assert forall|i: int| 0 <= i < total implies out@[i] == padded(
        lead as int,
        body@,
        total as int,
        fill,
    )[i] by {
        if i < lead + body@.len() {
            assert(out@.subrange(0, lead + body@.len())[i] == middle[i]);
        } else {
            assert(cloned::<u8>(fill, out@[i]));
        }
    }
    assert(out@ =~= padded(lead as int, body@, total as int, fill));
    out
}

} // verus!
