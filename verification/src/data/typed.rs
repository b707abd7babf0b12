//! Typed datarefs: datarefs whose payload is converted to and from Rust types.
use core::marker::PhantomData;

use super::{ArrayRead, ArrayReadWrite, ArrayType, DataRead, DataReadWrite};
use vstd::prelude::*;

verus! {

/// Trait which must be implemented by the conversion type to be able to read from typed
/// datarefs and convert them into the associated data type.
pub trait InputUnitConversion<X, R> {
    type Error;

    fn try_conv_in(value: X) -> Result<R, Self::Error>;
}

/// Trait which must be implemented by the conversion type to be able to write to typed
/// datarefs and convert the associated data type into the payload in the dataref.
pub trait OutputUnitConversion<R, X> {
    fn conv_out(value: &R) -> X;
}

/// This encapsulates a dataref (either owned or borrowed), which provides type-safe access
/// mechanisms for ingesting and outputting Rust data types. This way you can write a
/// non-primitive data type into a dataref, and have the conversion + validation happen
/// automatically.
pub struct TypedData<X: ?Sized, R, Conversion, Dref> {
    dr: Dref,
    data: PhantomData<X>,
    rust_type: PhantomData<R>,
    conv: PhantomData<Conversion>,
}

impl<X: ?Sized, R, Conversion, Dref> TypedData<X, R, Conversion, Dref> {
    /// The dataref that this typed dataref reads and writes.
    pub closed spec fn dref(&self) -> &Dref {
        &self.dr
    }

    /// Wraps a dataref.
    pub fn new(dr: Dref) -> (t: Self)
        ensures
            t.dref() == &dr,
    {
        TypedData { dr, data: PhantomData, rust_type: PhantomData, conv: PhantomData }
    }
}

/// This trait is implemented by typed datarefs to read scalar data and convert it into
/// Rust-native types.
pub trait TypedDataRead<X, R, C> where C: InputUnitConversion<X, R> {
    fn get(&self) -> Result<R, C::Error>;
}

impl<X, R, C, Dref> TypedDataRead<X, R, C> for TypedData<X, R, C, Dref> where
    C: InputUnitConversion<X, R>,
    Dref: DataRead<X>,
 {
    /// Reads the dataref and converts what it holds.
    fn get(&self) -> (r: Result<R, C::Error>)
        ensures
            exists|v: X|
                call_ensures(Dref::get, (self.dref(),), v) && call_ensures(C::try_conv_in, (v,), r),
    {
        let read = Dref::get;
        let conv = C::try_conv_in;
        let v = read(&self.dr);
        let r = conv(v);
        assert(call_ensures(Dref::get, (self.dref(),), v) && call_ensures(C::try_conv_in, (v,), r));
        r
    }
}


/// This trait is implemented by typed datarefs to convert a Rust-native type into a
/// dataref-compatible scalar data type and write it to the scalar dataref.
pub trait TypedDataReadWrite<X, R, C> where C: OutputUnitConversion<R, X> {
    fn set(&mut self, value: R);
}

impl<X, R, C, Dref> TypedDataReadWrite<X, R, C> for TypedData<X, R, C, Dref> where
    C: OutputUnitConversion<R, X>,
    Dref: DataReadWrite<X>,
 {
    /// Converts `value` and writes the result to the dataref: the dataref afterwards is one
    /// that `Dref::set` may leave when it is handed the converted value.
    fn set(&mut self, value: R)
        ensures
            exists|x: X, m: &mut Dref|
                call_ensures(C::conv_out, (&value,), x) && mut_ref_current(m) == *old(self).dref()
                    && mut_ref_future(m) == *final(self).dref() && call_ensures(
                    Dref::set,
                    (m, x),
                    (),
                ),
    {
        let conv = C::conv_out;
        let x = conv(&value);
        let write = Dref::set;
        write(&mut self.dr, x);
    }
}

/// `r` is what converting `vals` one element at a time with `C` gives: on success one
/// converted element for each element, in order; otherwise the error of the first element
/// whose conversion fails, all elements before it having converted.
pub open spec fn converted_in<T, R, C: InputUnitConversion<T, R>>(
    vals: Seq<T>,
    r: Result<Vec<R>, C::Error>,
) -> bool {
    match r {
        Ok(out) => out@.len() == vals.len() && forall|i: int|
            0 <= i < vals.len() ==> #[trigger] call_ensures(
                C::try_conv_in,
                (vals[i],),
                Ok::<R, C::Error>(out@[i]),
            ),
        Err(e) => exists|i: int| #[trigger] fails_first_at::<T, R, C>(vals, i, e),
    }
}

/// The conversion of element `i` of `vals` with `C` may fail with `e`, and the conversion of
/// every element before it may succeed.
pub open spec fn fails_first_at<T, R, C: InputUnitConversion<T, R>>(
    vals: Seq<T>,
    i: int,
    e: C::Error,
) -> bool {
    &&& 0 <= i < vals.len()
    &&& call_ensures(C::try_conv_in, (vals[i],), Err::<R, C::Error>(e))
    &&& forall|j: int| 0 <= j < i ==> #[trigger] converts_ok::<T, R, C>(vals[j])
}

/// Converting `v` with `C` may succeed.
pub open spec fn converts_ok<T, R, C: InputUnitConversion<T, R>>(v: T) -> bool {
    exists|o: R| #[trigger] call_ensures(C::try_conv_in, (v,), Ok::<R, C::Error>(o))
}

/// Converts each element of `vals` with `C`, stopping at the first element whose
/// conversion fails (see `converted_in`).
pub fn convert_in_all<T: Copy, R, C: InputUnitConversion<T, R>>(vals: &Vec<T>) -> (r: Result<
    Vec<R>,
    C::Error,
>)
    ensures
        converted_in::<T, R, C>(vals@, r),
{
    let conv = C::try_conv_in;
    let mut out: Vec<R> = Vec::new();
    let mut i: usize = 0;
    while i < vals.len()
        invariant
            i <= vals@.len(),
            out@.len() == i,
            forall|k: int|
                0 <= k < i ==> #[trigger] call_ensures(
                    C::try_conv_in,
                    (vals@[k],),
                    Ok::<R, C::Error>(out@[k]),
                ),
        decreases vals@.len() - i,
    {
        let v = vals[i];
        match conv(v) {
            Ok(x) => {
                out.push(x);
            },
            Err(e) => {
                assert forall|j: int| 0 <= j < i implies #[trigger] converts_ok::<T, R, C>(
                    vals@[j],
                ) by {
                    assert(call_ensures(C::try_conv_in, (vals@[j],), Ok::<R, C::Error>(out@[j])));
                }
                assert(call_ensures(C::try_conv_in, (vals@[i as int],), Err::<R, C::Error>(e)));
                assert(fails_first_at::<T, R, C>(vals@, i as int, e));
                let r = Err::<Vec<R>, C::Error>(e);
                assert(r matches Err(e2) && e2 == e);
                assert(exists|k: int| #[trigger] fails_first_at::<T, R, C>(vals@, k, e));
                assert(converted_in::<T, R, C>(vals@, r));
                return r;
            },
        }
        i = i + 1;
    }
    Ok(out)
}

/// `out` is `vals` converted one element at a time with `C`.
pub open spec fn converted_out<R, T, C: OutputUnitConversion<R, T>>(vals: Seq<R>, out: Seq<T>) -> bool {
    out.len() == vals.len() && forall|i: int|
        0 <= i < vals.len() ==> #[trigger] call_ensures(C::conv_out, (&vals[i],), out[i])
}

/// Converts each element of `vals` with `C` (see `converted_out`).
pub fn convert_out_all<R, T, C: OutputUnitConversion<R, T>>(vals: &[R]) -> (out: Vec<T>)
    ensures
        converted_out::<R, T, C>(vals@, out@),
{
    let conv = C::conv_out;
    let mut out: Vec<T> = Vec::new();
    let mut i: usize = 0;
    while i < vals.len()
        invariant
            i <= vals@.len(),
            out@.len() == i,
            forall|k: int| 0 <= k < i ==> #[trigger] call_ensures(C::conv_out, (&vals@[k],), out@[k]),
        decreases vals@.len() - i,
    {
        let x = conv(&vals[i]);
        out.push(x);
        i = i + 1;
    }
    out
}

/// std's `..`, the range of all elements.
#[verifier::external_type_specification]
#[verifier::external_body]
pub struct ExRangeFull(core::ops::RangeFull);

/// Builds std's `..`; it carries nothing to state.
#[verifier::external_body]
fn full_range() -> core::ops::RangeFull {
    ..
}

/// This trait is implemented by typed datarefs to read array data and convert it into
/// a vector of Rust-native types.
pub trait TypedArrayRead<X, R, C> where X: ArrayType + ?Sized, C: InputUnitConversion<X::Validation, R> {
    /// Reads all elements of the array dataref and converts it into Rust-native types.
    /// If any of the data elements fails validation, this function returns that error
    /// instead of any of the elements. This is equivalent to calling `.get_subdata(..)`
    /// on the dataref.
    fn get(&self) -> (r: Result<Vec<R>, C::Error>)
        ensures
            exists|vals: Seq<X::Validation>| converted_in::<X::Validation, R, C>(vals, r),
    {
        self.get_subdata(full_range())
    }

    /// Returns only a given range of Rust-native typed data from the array dataref.
    /// If any of the data elements fails validation, this function returns that error
    /// instead of any of the elements.
    fn get_subdata(&self, range: impl core::ops::RangeBounds<usize>) -> (r: Result<Vec<R>, C::Error>)
        ensures
            exists|vals: Seq<X::Validation>| converted_in::<X::Validation, R, C>(vals, r),
    ;
}

impl<T: Copy, R, C, Dref> TypedArrayRead<[T], R, C> for TypedData<[T], R, C, Dref> where
    C: InputUnitConversion<T, R>,
    Dref: ArrayRead<[T]>,
 {
    /// Reads all elements of the dataref and converts them: the result is the conversion of
    /// what the dataref's `as_vec_subdata` hands out for `..` (see `converted_in`).
    fn get(&self) -> (r: Result<Vec<R>, C::Error>)
        ensures
            exists|all: core::ops::RangeFull, vals: Vec<T>|
                call_ensures(Dref::as_vec_subdata, (self.dref(), all), vals) && converted_in::<
                    T,
                    R,
                    C,
                >(vals@, r),
    {
        self.get_subdata(full_range())
    }

    /// Reads the elements of `range` from the dataref and converts them (see `converted_in`):
    /// the result is the conversion of what the dataref's `as_vec_subdata` hands out for
    /// `range`.
    fn get_subdata(&self, range: impl core::ops::RangeBounds<usize>) -> (r: Result<Vec<R>, C::Error>)
        ensures
            exists|vals: Vec<T>|
                call_ensures(Dref::as_vec_subdata, (self.dref(), range), vals) && converted_in::<
                    T,
                    R,
                    C,
                >(vals@, r),
    {
        let vals = self.dr.as_vec_subdata(range);
        let r = convert_in_all::<T, R, C>(&vals);
        assert(converted_in::<T, R, C>(vals@, r));
        r
    }
}

/// This trait is implemented by typed datarefs to convert a slice of Rust-native data
/// into a dataref-compatible data type and write it to the array dataref.
pub trait TypedArrayReadWrite<X, R, C> where X: ArrayType + ?Sized, C: OutputUnitConversion<R, X::Validation> {
    /// Writes all elements of the array dataref from Rust-native types in the provided slice.
    /// If the provided slice contains fewer elements than the length of the array, only those
    /// elements for which we have data are overwritten. Conversely, if the slice contains
    /// more elements than the length of the array dataref, excess elements are discarded.
    fn set(&mut self, values: &[R]) where Self: Sized
        ensures
            exists|m: &mut Self|
                mut_ref_current(m) == *old(self) && mut_ref_future(m) == *final(self)
                    && call_ensures(Self::set_subdata, (m, values, 0usize), ()),
    {
        let write = Self::set_subdata;
        write(self, values, 0);
    }

    /// Writes a subset of elements in the array dataref starting at `offset` and fills it with
    /// the Rust-native types in the provided slice. If the slice contains more elements than
    /// the length of the array dataref following the specified `offset`, excess elements are
    /// discarded.
    fn set_subdata(&mut self, values: &[R], offset: usize);
}

impl<T, R, C, Dref> TypedArrayReadWrite<[T], R, C> for TypedData<[T], R, C, Dref> where
    C: OutputUnitConversion<R, T>,
    Dref: ArrayReadWrite<[T]>,
 {
    /// Converts `values` (see `converted_out`) and writes them from element `start_offset` on:
    /// the dataref afterwards is one that `Dref::set_subdata` may leave when it is handed the
    /// converted values and the offset.
    fn set_subdata(&mut self, values: &[R], start_offset: usize)
        ensures
            exists|converted: &[T], m: &mut Dref|
                converted_out::<R, T, C>(values@, converted@) && mut_ref_current(m)
                    == *old(self).dref() && mut_ref_future(m) == *final(self).dref()
                    && call_ensures(Dref::set_subdata, (m, converted, start_offset), ()),
    {
        let converted = convert_out_all::<R, T, C>(values);
        write_subdata::<[T], Dref>(&mut self.dr, converted.as_slice(), start_offset);
    }
}

/// Hands `values` and `start` to the dataref's own `set_subdata`: the dataref afterwards is
/// one that its `set_subdata` may leave.
fn write_subdata<A: ArrayType + ?Sized, D: ArrayReadWrite<A>>(
    d: &mut D,
    values: &[A::Validation],
    start: usize,
)
    ensures
        exists|m: &mut D|
            mut_ref_current(m) == *old(d) && mut_ref_future(m) == *final(d) && call_ensures(
                D::set_subdata,
                (m, values, start),
                (),
            ),
{
    let write = D::set_subdata;
    write(d, values, start);
}

} // verus!
