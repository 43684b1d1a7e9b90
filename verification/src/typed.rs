//! Typed views over a scoped region: slices of cells and single cells.
//!
//! A [`SliceRegion`] is the typed counterpart of a byte region: a run of
//! `count` cells of one element type, each either still uninitialized
//! (`None`) or holding a written value (`Some`). A [`ScalarCell`] is the
//! one-element case. Reading a cell demands that it holds a value, so no
//! callback can observe an uninitialized cell.
//!
//! The [`Zeroable`] trait names the element types whose zero value the
//! zero-filled variants can produce: exactly the types for which "every
//! byte is zero" is itself a legal value, stated here as a type-level
//! constraint rather than left as a caller obligation.

use vstd::prelude::*;

verus! {

/// An element type with a distinguished zero value, the one the
/// zero-filled views write into every cell.
pub trait Zeroable: Sized {
    /// The zero value, at the specification level.
    spec fn zero_spec() -> Self;

    /// Produces the zero value.
    fn zero() -> (r: Self)
        ensures
            r == Self::zero_spec(),
    ;
}

impl Zeroable for u8 {
    open spec fn zero_spec() -> u8 {
        0u8
    }

    fn zero() -> u8 {
        0u8
    }
}

impl Zeroable for u16 {
    open spec fn zero_spec() -> u16 {
        0u16
    }

    fn zero() -> u16 {
        0u16
    }
}

impl Zeroable for u32 {
    open spec fn zero_spec() -> u32 {
        0u32
    }

    fn zero() -> u32 {
        0u32
    }
}

impl Zeroable for u64 {
    open spec fn zero_spec() -> u64 {
        0u64
    }

    fn zero() -> u64 {
        0u64
    }
}

impl Zeroable for usize {
    open spec fn zero_spec() -> usize {
        0usize
    }

    fn zero() -> usize {
        0usize
    }
}

impl Zeroable for i8 {
    open spec fn zero_spec() -> i8 {
        0i8
    }

    fn zero() -> i8 {
        0i8
    }
}

impl Zeroable for i16 {
    open spec fn zero_spec() -> i16 {
        0i16
    }

    fn zero() -> i16 {
        0i16
    }
}

impl Zeroable for i32 {
    open spec fn zero_spec() -> i32 {
        0i32
    }

    fn zero() -> i32 {
        0i32
    }
}

impl Zeroable for i64 {
    open spec fn zero_spec() -> i64 {
        0i64
    }

    fn zero() -> i64 {
        0i64
    }
}

impl Zeroable for isize {
    open spec fn zero_spec() -> isize {
        0isize
    }

    fn zero() -> isize {
        0isize
    }
}

impl Zeroable for bool {
    open spec fn zero_spec() -> bool {
        false
    }

    fn zero() -> bool {
        false
    }
}

/// A run of cells of element type `T`, each possibly uninitialized.
pub struct SliceRegion<T> {
    cells: Vec<Option<T>>,
}

impl<T> View for SliceRegion<T> {
    type V = Seq<Option<T>>;

    closed spec fn view(&self) -> Seq<Option<T>> {
        self.cells@
    }
}

/// The slice has exactly `count` cells and none of them holds a value.
pub open spec fn uninit_cells<T>(reg: SliceRegion<T>, count: nat) -> bool {
    &&& reg@.len() == count
    &&& forall|j: int| 0 <= j < count ==> reg@[j] is None
}

/// The slice has exactly `count` cells and every one of them holds a value.
pub open spec fn init_cells<T>(reg: SliceRegion<T>, count: nat) -> bool {
    &&& reg@.len() == count
    &&& forall|j: int| 0 <= j < count ==> reg@[j] is Some
}

/// The slice has exactly `count` cells and every one holds the element
/// type's zero value.
pub open spec fn zeroed_cells<T: Zeroable>(reg: SliceRegion<T>, count: nat) -> bool {
    &&& reg@.len() == count
    &&& forall|j: int| 0 <= j < count ==> reg@[j] == Some(T::zero_spec())
}

impl<T> SliceRegion<T> {
    /// A fresh run of `count` cells, all uninitialized.
    pub(crate) fn uninit(count: usize) -> (reg: SliceRegion<T>)
        ensures
            uninit_cells(reg, count as nat),
    {
        let mut cells: Vec<Option<T>> = Vec::new();
        let mut i: usize = 0;
        while i < count
            invariant
                i <= count,
                cells@.len() == i,
                forall|j: int| 0 <= j < i ==> cells@[j] is None,
            decreases count - i,
        {
            cells.push(None);
            i = i + 1;
        }
        SliceRegion { cells }
    }

    /// The number of cells in the run.
    pub fn len(&self) -> (n: usize)
        ensures
            n == self@.len(),
    {
        self.cells.len()
    }

    /// Writes `v` into cell `i`; every other cell keeps its state.
    pub fn write(&mut self, i: usize, v: T)
        requires
            i < old(self)@.len(),
        ensures
            final(self)@ == old(self)@.update(i as int, Some(v)),
    {
        self.cells.set(i, Some(v));
    }
}

impl<T: Copy> SliceRegion<T> {
    /// Reads cell `i`, which must hold a value.
    pub fn read(&self, i: usize) -> (v: T)
        requires
            i < self@.len(),
            self@[i as int] is Some,
        ensures
            Some(v) == self@[i as int],
    {
        self.cells[i].unwrap()
    }
}

impl<T: Default> SliceRegion<T> {
    /// A fresh run of `count` cells, each already holding some value of
    /// `T`; which value is left unspecified.
    pub(crate) fn filled(count: usize) -> (reg: SliceRegion<T>)
        ensures
            init_cells(reg, count as nat),
    {
        let mut cells: Vec<Option<T>> = Vec::new();
        let mut i: usize = 0;
        while i < count
            invariant
                i <= count,
                cells@.len() == i,
                forall|j: int| 0 <= j < i ==> cells@[j] is Some,
            decreases count - i,
        {
            cells.push(Some(T::default()));
            i = i + 1;
        }
        SliceRegion { cells }
    }
}

impl<T: Zeroable> SliceRegion<T> {
    /// A fresh run of `count` cells, each holding the zero value of `T`.
    pub(crate) fn zeroed(count: usize) -> (reg: SliceRegion<T>)
        ensures
            zeroed_cells(reg, count as nat),
    {
        let mut cells: Vec<Option<T>> = Vec::new();
        let mut i: usize = 0;
        while i < count
            invariant
                i <= count,
                cells@.len() == i,
                forall|j: int| 0 <= j < i ==> cells@[j] == Some(T::zero_spec()),
            decreases count - i,
        {
            cells.push(Some(T::zero()));
            i = i + 1;
        }
        SliceRegion { cells }
    }
}

/// A single cell of element type `T`, possibly uninitialized.
pub struct ScalarCell<T> {
    cell: Option<T>,
}

impl<T> View for ScalarCell<T> {
    type V = Option<T>;

    closed spec fn view(&self) -> Option<T> {
        self.cell
    }
}

impl<T> ScalarCell<T> {
    /// A fresh uninitialized cell.
    pub(crate) fn uninit() -> (c: ScalarCell<T>)
        ensures
            c@ is None,
    {
        ScalarCell { cell: None }
    }

    /// Writes `v` into the cell.
    pub fn write(&mut self, v: T)
        ensures
            final(self)@ == Some(v),
    {
        self.cell = Some(v);
    }
}

impl<T: Copy> ScalarCell<T> {
    /// Reads the cell, which must hold a value.
    pub fn read(&self) -> (v: T)
        requires
            self@ is Some,
        ensures
            Some(v) == self@,
    {
        self.cell.unwrap()
    }
}

impl<T: Default> ScalarCell<T> {
    /// A fresh cell already holding some value of `T`; which value is left
    /// unspecified.
    pub(crate) fn filled() -> (c: ScalarCell<T>)
        ensures
            c@ is Some,
    {
        ScalarCell { cell: Some(T::default()) }
    }
}

impl<T: Zeroable> ScalarCell<T> {
    /// A fresh cell holding the zero value of `T`.
    pub(crate) fn zeroed() -> (c: ScalarCell<T>)
        ensures
            c@ == Some(T::zero_spec()),
    {
        ScalarCell { cell: Some(T::zero()) }
    }
}

} // verus!
