//! Access to X-Plane datarefs, and typed datarefs that convert their payload into Rust types.
pub mod typed;

use vstd::prelude::*;

verus! {

/// The payload types of array datarefs, with the type of one element.
pub trait ArrayType {
    /// The type of one element, which typed datarefs convert one at a time
    type Validation;
}

impl<T> ArrayType for [T] {
    type Validation = T;
}

/// Datarefs whose scalar value can be read.
pub trait DataRead<T> {
    /// Reads the current value
    fn get(&self) -> T;
}

/// Datarefs whose scalar value can be read and written.
pub trait DataReadWrite<T>: DataRead<T> {
    /// Writes a new value
    fn set(&mut self, value: T);
}

/// Array datarefs whose elements can be read.
pub trait ArrayRead<T: ArrayType + ?Sized> {
    /// Reads the elements of the given range
    fn as_vec_subdata(&self, range: impl core::ops::RangeBounds<usize>) -> Vec<T::Validation>;
}

/// Array datarefs whose elements can be read and written.
pub trait ArrayReadWrite<T: ArrayType + ?Sized>: ArrayRead<T> {
    /// Writes `values` starting at element `start`
    fn set_subdata(&mut self, values: &[T::Validation], start: usize);
}

} // verus!
