//! Scoped, single-use memory regions handed to a callback.
//!
//! Every entry point of this library follows one shape: the caller names a
//! size (or an element count) and supplies a callback; the library builds a
//! fresh region of exactly that extent, invokes the callback once with the
//! region, and returns the callback's result unchanged. The region is moved
//! into the callback, so it lives exactly for the callback's duration and is
//! released when the callback returns or unwinds; nothing of it survives the
//! call.
//!
//! The views come in three layers over the raw scope: a byte view
//! ([`with_bytes`], [`with_bytes_zeroed`]), a typed slice view
//! ([`with_slice`] and its variants), and a scalar view ([`with`] and its
//! variants). Cells start uninitialized; the zeroed variants hand over cells
//! already holding the zero value of the element type, and the
//! assume-initialized variants hand over cells that are readable at once,
//! with unspecified initial contents.

use vstd::prelude::*;

pub mod align;
pub mod region;
pub mod typed;

pub use region::ByteRegion;
pub use region::uninit_bytes;
pub use region::zeroed_bytes;
pub use typed::ScalarCell;
pub use typed::SliceRegion;
pub use typed::Zeroable;
pub use typed::init_cells;
pub use typed::uninit_cells;
pub use typed::zeroed_cells;

verus! {

/// The raw scope primitive: builds an uninitialized region of `size` byte
/// cells, invokes `f` exactly once with it, and returns `f`'s result
/// unchanged. The region is consumed by the call, so it cannot outlive `f`.
pub fn with_raw<R, F: FnOnce(ByteRegion) -> R>(size: usize, f: F) -> (result: R)
    requires
        forall|reg: ByteRegion| uninit_bytes(reg, size as nat) ==> call_requires(f, (reg,)),
    ensures
        exists|reg: ByteRegion| uninit_bytes(reg, size as nat) && call_ensures(f, (reg,), result),
{
    let reg = ByteRegion::uninit(size);
    let ghost w = reg;
    let result = f(reg);
    proof {
        assert(uninit_bytes(w, size as nat) && call_ensures(f, (w,), result));
    }
    result
}

/// The byte view: invokes `f` exactly once with an uninitialized region of
/// `size` byte cells and returns `f`'s result unchanged.
pub fn with_bytes<R, F: FnOnce(ByteRegion) -> R>(size: usize, f: F) -> (result: R)
    requires
        forall|reg: ByteRegion| uninit_bytes(reg, size as nat) ==> call_requires(f, (reg,)),
    ensures
        exists|reg: ByteRegion| uninit_bytes(reg, size as nat) && call_ensures(f, (reg,), result),
{
    with_raw(size, f)
}

/// The zero-filled byte view: invokes `f` exactly once with a region of
/// `size` byte cells in which every cell already holds the byte 0, and
/// returns `f`'s result unchanged.
pub fn with_bytes_zeroed<R, F: FnOnce(ByteRegion) -> R>(size: usize, f: F) -> (result: R)
    requires
        forall|reg: ByteRegion| zeroed_bytes(reg, size as nat) ==> call_requires(f, (reg,)),
    ensures
        exists|reg: ByteRegion| zeroed_bytes(reg, size as nat) && call_ensures(f, (reg,), result),
{
    let reg = ByteRegion::zeroed(size);
    let ghost w = reg;
    let result = f(reg);
    proof {
        assert(zeroed_bytes(w, size as nat) && call_ensures(f, (w,), result));
    }
    result
}

/// The typed slice view: invokes `f` exactly once with a run of exactly
/// `count` uninitialized cells of `T` and returns `f`'s result unchanged.
pub fn with_slice<T, R, F: FnOnce(SliceRegion<T>) -> R>(count: usize, f: F) -> (result: R)
    requires
        forall|reg: SliceRegion<T>| uninit_cells(reg, count as nat) ==> call_requires(f, (reg,)),
    ensures
        exists|reg: SliceRegion<T>|
            uninit_cells(reg, count as nat) && call_ensures(f, (reg,), result),
{
    let reg = SliceRegion::<T>::uninit(count);
    let ghost w = reg;
    let result = f(reg);
    proof {
        assert(uninit_cells(w, count as nat) && call_ensures(f, (w,), result));
    }
    result
}

/// The zero-filled typed slice view: invokes `f` exactly once with a run of
/// exactly `count` cells of `T`, every one holding `T`'s zero value, and
/// returns `f`'s result unchanged.
pub fn with_slice_zeroed<T: Zeroable, R, F: FnOnce(SliceRegion<T>) -> R>(
    count: usize,
    f: F,
) -> (result: R)
    requires
        forall|reg: SliceRegion<T>| zeroed_cells(reg, count as nat) ==> call_requires(f, (reg,)),
    ensures
        exists|reg: SliceRegion<T>|
            zeroed_cells(reg, count as nat) && call_ensures(f, (reg,), result),
{
    let reg = SliceRegion::<T>::zeroed(count);
    let ghost w = reg;
    let result = f(reg);
    proof {
        assert(zeroed_cells(w, count as nat) && call_ensures(f, (w,), result));
    }
    result
}

/// The assume-initialized typed slice view: invokes `f` exactly once with a
/// run of exactly `count` cells of `T` that are all readable at once; which
/// values they start with is unspecified. Returns `f`'s result unchanged.
pub fn with_slice_assume_init<T: Default, R, F: FnOnce(SliceRegion<T>) -> R>(
    count: usize,
    f: F,
) -> (result: R)
    requires
        forall|reg: SliceRegion<T>| init_cells(reg, count as nat) ==> call_requires(f, (reg,)),
    ensures
        exists|reg: SliceRegion<T>| init_cells(reg, count as nat) && call_ensures(f, (reg,), result),
{
    let reg = SliceRegion::<T>::filled(count);
    let ghost w = reg;
    let result = f(reg);
    proof {
        assert(init_cells(w, count as nat) && call_ensures(f, (w,), result));
    }
    result
}

/// The zero-filled, assume-initialized typed slice view: like
/// [`with_slice_zeroed`], and every cell is readable at once with `T`'s
/// zero value.
pub fn with_slice_zeroed_assume_init<T: Zeroable, R, F: FnOnce(SliceRegion<T>) -> R>(
    count: usize,
    f: F,
) -> (result: R)
    requires
        forall|reg: SliceRegion<T>| zeroed_cells(reg, count as nat) ==> call_requires(f, (reg,)),
    ensures
        exists|reg: SliceRegion<T>|
            zeroed_cells(reg, count as nat) && call_ensures(f, (reg,), result),
{
    with_slice_zeroed(count, f)
}

/// The scalar view: invokes `f` exactly once with a single uninitialized
/// cell of `T` and returns `f`'s result unchanged.
pub fn with<T, R, F: FnOnce(ScalarCell<T>) -> R>(f: F) -> (result: R)
    requires
        forall|c: ScalarCell<T>| c@ is None ==> call_requires(f, (c,)),
    ensures
        exists|c: ScalarCell<T>| c@ is None && call_ensures(f, (c,), result),
{
    let c = ScalarCell::<T>::uninit();
    let ghost w = c;
    let result = f(c);
    proof {
        assert(w@ is None && call_ensures(f, (w,), result));
    }
    result
}

/// The zero-filled scalar view: invokes `f` exactly once with a single cell
/// of `T` holding `T`'s zero value, and returns `f`'s result unchanged.
pub fn with_zeroed<T: Zeroable, R, F: FnOnce(ScalarCell<T>) -> R>(f: F) -> (result: R)
    requires
        forall|c: ScalarCell<T>| c@ == Some(T::zero_spec()) ==> call_requires(f, (c,)),
    ensures
        exists|c: ScalarCell<T>| c@ == Some(T::zero_spec()) && call_ensures(f, (c,), result),
{
    let c = ScalarCell::<T>::zeroed();
    let ghost w = c;
    let result = f(c);
    proof {
        assert(w@ == Some(T::zero_spec()) && call_ensures(f, (w,), result));
    }
    result
}

/// The assume-initialized scalar view: invokes `f` exactly once with a
/// single cell of `T` that is readable at once; which value it starts with
/// is unspecified. Returns `f`'s result unchanged.
pub fn with_assume_init<T: Default, R, F: FnOnce(ScalarCell<T>) -> R>(f: F) -> (result: R)
    requires
        forall|c: ScalarCell<T>| c@ is Some ==> call_requires(f, (c,)),
    ensures
        exists|c: ScalarCell<T>| c@ is Some && call_ensures(f, (c,), result),
{
    let c = ScalarCell::<T>::filled();
    let ghost w = c;
    let result = f(c);
    proof {
        assert(w@ is Some && call_ensures(f, (w,), result));
    }
    result
}

/// The zero-filled, assume-initialized scalar view: like [`with_zeroed`],
/// the cell is readable at once with `T`'s zero value.
pub fn with_zeroed_assume_init<T: Zeroable, R, F: FnOnce(ScalarCell<T>) -> R>(f: F) -> (result: R)
    requires
        forall|c: ScalarCell<T>| c@ == Some(T::zero_spec()) ==> call_requires(f, (c,)),
    ensures
        exists|c: ScalarCell<T>| c@ == Some(T::zero_spec()) && call_ensures(f, (c,), result),
{
    with_zeroed(f)
}

} // verus!
