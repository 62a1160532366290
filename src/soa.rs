//! Handles into flat, append-only backing sequences.
//!
//! A handle is a plain number (or a pair of numbers) tagged at the type level
//! with the kind of element it refers to, so that handles into different
//! sequences cannot be mixed up. Handles own nothing; the sequence they index
//! into is the sole owner of the data.
use vstd::prelude::*;

verus! {

/// The largest length a sequence may reach while handles into it are issued.
pub const MAX_INDEX: u32 = 0xffff_ffff;

/// The largest number of elements one `Slice` can cover.
pub const MAX_SLICE_LEN: u16 = 0xffff;

/// A handle to one element of a backing sequence whose elements have type `T`.
#[derive(Debug)]
pub struct Index<T> {
    pub index: u32,
    pub _marker: core::marker::PhantomData<T>,
}

impl<T> Clone for Index<T> {
    fn clone(&self) -> (r: Self)
        ensures
            r == *self,
    {
        *self
    }
}

impl<T> Copy for Index<T> {

}

impl<T> Index<T> {
    /// The handle with the given position.
    pub open spec fn at(i: int) -> Self {
        Index { index: i as u32, _marker: core::marker::PhantomData }
    }

    pub fn new(index: u32) -> (r: Self)
        ensures
            r == Self::at(index as int),
    {
        Index { index, _marker: core::marker::PhantomData }
    }

    pub fn index(&self) -> (r: usize)
        ensures
            r == self.index,
    {
        self.index as usize
    }

    /// Appends `value` to `vec` and returns the handle of the new last element.
    pub fn push_new(vec: &mut Vec<T>, value: T) -> (r: Self)
        requires
            old(vec)@.len() <= MAX_INDEX,
        ensures
            final(vec)@ == old(vec)@.push(value),
            r == Self::at(old(vec)@.len() as int),
    {
        let index = vec.len() as u32;
        vec.push(value);
        Index::new(index)
    }
}

/// A handle to a contiguous run of a backing sequence: `length` elements
/// starting at position `start`.
#[derive(Debug)]
pub struct Slice<T> {
    pub start: u32,
    pub length: u16,
    pub _marker: core::marker::PhantomData<T>,
}

impl<T> Clone for Slice<T> {
    fn clone(&self) -> (r: Self)
        ensures
            r == *self,
    {
        *self
    }
}

impl<T> Copy for Slice<T> {

}

impl<T> Default for Slice<T> {
    fn default() -> (r: Self)
        ensures
            r == Self::empty(),
    {
        Slice { start: 0, length: 0, _marker: core::marker::PhantomData }
    }
}

impl<T> Slice<T> {
    /// The run of `length` elements that starts at `start`.
    pub open spec fn run(start: int, length: int) -> Self {
        Slice { start: start as u32, length: length as u16, _marker: core::marker::PhantomData }
    }

    /// The run of no elements at position zero.
    pub open spec fn empty() -> Self {
        Self::run(0, 0)
    }

    /// One past the last position of the run.
    pub open spec fn end(self) -> int {
        self.start + self.length
    }

    /// The elements of `seq` that the run covers.
    pub open spec fn read(self, seq: Seq<T>) -> Seq<T> {
        seq.subrange(self.start as int, self.end())
    }

    pub fn new(start: u32, length: u16) -> (r: Self)
        ensures
            r == Self::run(start as int, length as int),
    {
        Slice { start, length, _marker: core::marker::PhantomData }
    }

    pub fn start(&self) -> (r: usize)
        ensures
            r == self.start,
    {
        self.start as usize
    }

    pub fn len(&self) -> (r: usize)
        ensures
            r == self.length,
    {
        self.length as usize
    }

    pub fn is_empty(&self) -> (r: bool)
        ensures
            r == (self.length == 0),
    {
        self.length == 0
    }

    /// Appends all of `values` to `vec` and returns the run they now occupy.
    pub fn extend_new(vec: &mut Vec<T>, values: Vec<T>) -> (r: Self)
        requires
            old(vec)@.len() + values@.len() <= MAX_INDEX,
            values@.len() <= MAX_SLICE_LEN,
        ensures
            final(vec)@ == old(vec)@ + values@,
            r == Self::run(old(vec)@.len() as int, values@.len() as int),
    {
        let start = vec.len() as u32;
        let length = values.len() as u16;
        let mut values = values;
        vec.append(&mut values);
        Slice::new(start, length)
    }
}

/// The largest position either kind of `EitherIndex` can hold.
pub const MAX_EITHER: u32 = 0x7fff_ffff;

/// The bit of an `EitherIndex` that marks a `right` handle.
pub const RIGHT_BIT: u32 = 0x8000_0000;

/// A handle into one of two backing sequences: a `left` index into the
/// sequence of `T`s or a `right` index into the sequence of `U`s. The kind is
/// kept in the top bit, so that the handle stays one `u32`; `split` tells the
/// two apart.
#[derive(Debug)]
pub struct EitherIndex<T, U> {
    pub index: u32,
    pub _marker: core::marker::PhantomData<(T, U)>,
}

impl<T, U> Clone for EitherIndex<T, U> {
    fn clone(&self) -> (r: Self)
        ensures
            r == *self,
    {
        *self
    }
}

impl<T, U> Copy for EitherIndex<T, U> {

}

impl<T, U> EitherIndex<T, U> {
    /// The handle of position `i` of the `T`s.
    pub open spec fn left(i: Index<T>) -> Self {
        EitherIndex { index: i.index, _marker: core::marker::PhantomData }
    }

    /// The handle of position `i` of the `U`s.
    pub open spec fn right(i: Index<U>) -> Self {
        EitherIndex { index: (i.index + RIGHT_BIT) as u32, _marker: core::marker::PhantomData }
    }

    /// Which sequence the handle refers to, and where.
    pub open spec fn spec_split(self) -> Result<Index<T>, Index<U>> {
        if self.index < RIGHT_BIT {
            Ok(Index::at(self.index as int))
        } else {
            Err(Index::at(self.index - RIGHT_BIT))
        }
    }

    pub fn from_left(input: Index<T>) -> (r: Self)
        requires
            input.index <= MAX_EITHER,
        ensures
            r == Self::left(input),
            r.spec_split() == Ok::<Index<T>, Index<U>>(input),
    {
        EitherIndex { index: input.index, _marker: core::marker::PhantomData }
    }

    pub fn from_right(input: Index<U>) -> (r: Self)
        requires
            input.index <= MAX_EITHER,
        ensures
            r == Self::right(input),
            r.spec_split() == Err::<Index<T>, Index<U>>(input),
    {
        EitherIndex { index: input.index + RIGHT_BIT, _marker: core::marker::PhantomData }
    }

    /// Tells the two kinds of handle apart.
    pub fn split(self) -> (r: Result<Index<T>, Index<U>>)
        ensures
            r == self.spec_split(),
    {
        if self.index < RIGHT_BIT {
            Ok(Index::new(self.index))
        } else {
            Err(Index::new(self.index - RIGHT_BIT))
        }
    }
}

} // verus!
