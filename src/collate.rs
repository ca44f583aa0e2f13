//! Collation policies: how the samples of one batch merge into one output.
use ndarray::Array1;
use vstd::prelude::*;

verus! {

/// A batch of numbers stacked along a new leading dimension: a one-dimensional
/// `ndarray` array whose length is the batch's.
#[verifier::external_body]
#[derive(Debug, PartialEq)]
pub struct StackedBatch {
    array: Array1<i32>,
}

/// The elements of a stacked batch, in order.
pub uninterp spec fn stacked_elems(b: StackedBatch) -> Seq<i32>;

/// Relies on `ndarray::ArrayBase::from_vec`: a one-dimensional array that holds
/// the elements of `v` in order (it panics only for zero-sized elements).
#[verifier::external_body]
fn stack_numbers(v: Vec<i32>) -> (r: StackedBatch)
    ensures
        stacked_elems(r) == v@,
{
    StackedBatch { array: Array1::from_vec(v) }
}

/// Relies on `ndarray::ArrayBase::to_vec`: the elements of a one-dimensional
/// array, in order.
#[verifier::external_body]
fn stacked_to_vec(b: &StackedBatch) -> (r: Vec<i32>)
    ensures
        r@ == stacked_elems(*b),
{
    b.array.to_vec()
}

impl StackedBatch {
    /// The stacked numbers, in batch order.
    pub fn to_vec(&self) -> (r: Vec<i32>)
        ensures
            r@ == stacked_elems(*self),
    {
        stacked_to_vec(self)
    }

    /// The size of the leading (batch) dimension.
    pub fn len(&self) -> (r: usize)
        ensures
            r == stacked_elems(*self).len(),
    {
        self.to_vec().len()
    }
}

/// Merges the ordered samples of one batch into one output value.
pub trait Collate<T>: Sized {
    type Output;

    /// Whether `out` is what this policy makes of the samples `batch`.
    spec fn collates(&self, batch: Seq<T>, out: Self::Output) -> bool;

    fn collate(&self, batch: Vec<T>) -> (r: Self::Output)
        ensures
            self.collates(batch@, r),
    ;
}

/// Hands the batch back unchanged, as the ordered sequence of its samples.
#[derive(Debug, Clone, Copy, PartialEq, Eq, Hash, Default)]
pub struct NoOpCollate;

impl<T> Collate<T> for NoOpCollate {
    type Output = Vec<T>;

    open spec fn collates(&self, batch: Seq<T>, out: Vec<T>) -> bool {
        out@ == batch
    }

    fn collate(&self, batch: Vec<T>) -> (r: Vec<T>) {
        batch
    }
}

/// Merges samples by their structure: text samples stay a sequence, numbers are
/// stacked along a new leading dimension.
#[derive(Debug, Clone, Copy, PartialEq, Eq, Hash, Default)]
pub struct DefaultCollate;

impl Collate<String> for DefaultCollate {
    type Output = Vec<String>;

    open spec fn collates(&self, batch: Seq<String>, out: Vec<String>) -> bool {
        out@ == batch
    }

    fn collate(&self, batch: Vec<String>) -> (r: Vec<String>) {
        batch
    }
}

} // verus!

verus! {

impl Collate<i32> for DefaultCollate {
    type Output = StackedBatch;

    open spec fn collates(&self, batch: Seq<i32>, out: StackedBatch) -> bool {
        stacked_elems(out) == batch
    }

    /// Stacks the numbers into a one-dimensional array of the batch's length.
    fn collate(&self, batch: Vec<i32>) -> (r: StackedBatch) {
        stack_numbers(batch)
    }
}

} // verus!
