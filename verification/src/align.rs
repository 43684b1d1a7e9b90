//! The pointer-alignment arithmetic behind the typed slice view.
//!
//! The typed view over-allocates a raw byte region by `align - 1` bytes and
//! then advances the base address to the next multiple of `align`. This
//! module holds that adjustment as a verified function on plain addresses,
//! together with the proof that the over-allocation always leaves room for
//! the full run of elements, whatever the base address was — even one with
//! no alignment at all beyond byte alignment.

use vstd::prelude::*;
use vstd::arithmetic::div_mod::lemma_fundamental_div_mod;

verus! {

/// How far the address `base` must be advanced to reach the next multiple
/// of `align` (zero when `base` is already a multiple).
pub open spec fn aligned_offset_spec(base: nat, align: nat) -> nat
    recommends
        align >= 1,
{
    if base % align == 0 {
        0
    } else {
        (align - base % align) as nat
    }
}

/// The standard pointer-alignment adjustment: returns the distance from
/// `base` to the next address that is a multiple of `align`.
pub fn aligned_offset(base: usize, align: usize) -> (off: usize)
    requires
        align >= 1,
    ensures
        off == aligned_offset_spec(base as nat, align as nat),
        off < align,
        (base + off) % (align as int) == 0,
{
    proof {
        lemma_aligned_region_fits(base as nat, align as nat, 0, 0);
    }
    let r = base % align;
    if r == 0 {
        0
    } else {
        align - r
    }
}

/// The raw byte size the typed view requests for `count` elements of size
/// `elem_size` and alignment `align`: `count * elem_size + align - 1`, or
/// `None` when that does not fit in a `usize`.
pub fn slice_bytes_needed(count: usize, elem_size: usize, align: usize) -> (n: Option<usize>)
    requires
        align >= 1,
    ensures
        match n {
            Some(v) => v == count * elem_size + align - 1,
            None => count * elem_size + align - 1 > usize::MAX,
        },
{
    match count.checked_mul(elem_size) {
        Some(bytes) => bytes.checked_add(align - 1),
        None => None,
    }
}

/// The alignment guarantee of the typed slice view: for every base address,
/// advancing by the alignment adjustment lands on a multiple of `align`,
/// and the advanced range of `count` elements of size `size` still fits in
/// a region over-allocated by `align - 1` bytes. The base address needs no
/// alignment of its own: the bound holds even for a base of byte alignment.
pub proof fn lemma_aligned_region_fits(base: nat, align: nat, count: nat, size: nat)
    requires
        align >= 1,
    ensures
        (base + aligned_offset_spec(base, align)) % align == 0,
        aligned_offset_spec(base, align) + count * size <= count * size + (align - 1),
{
    lemma_fundamental_div_mod(base as int, align as int);
    let q = base as int / align as int;
    let r = base as int % align as int;
    let off = aligned_offset_spec(base, align) as int;
    assert((base + off) % (align as int) == 0) by (nonlinear_arith)
        requires
            align >= 1,
            base == (align as int) * q + r,
            0 <= r,
            r < align,
            off == if r == 0 { 0int } else { align - r },
    ;
}

} // verus!
