//! Datasets: what the loader draws samples from, by index.
use vstd::pervasive::cloned;
use vstd::prelude::*;

verus! {

/// A collection of samples of a fixed length, read by index.
pub trait Dataset: Sized {
    type Sample;

    /// The number of samples.
    spec fn spec_len(&self) -> nat;

    /// Whether `sample` is what reading index `index` gives.
    spec fn yields(&self, index: int, sample: Self::Sample) -> bool;

    /// The length of a dataset fits in a `usize`.
    proof fn lemma_len_fits(&self)
        ensures
            self.spec_len() <= usize::MAX,
    ;

    fn len(&self) -> (r: usize)
        ensures
            r == self.spec_len(),
    ;

    fn get_item(&self, index: usize) -> (r: Self::Sample)
        requires
            index < self.spec_len(),
        ensures
            self.yields(index as int, r),
    ;
}

/// A vector is a dataset of its elements; reading one hands out a clone.
impl<T: Clone> Dataset for Vec<T> {
    type Sample = T;

    open spec fn spec_len(&self) -> nat {
        self@.len()
    }

    open spec fn yields(&self, index: int, sample: T) -> bool {
        cloned(self@[index], sample)
    }

    proof fn lemma_len_fits(&self) {
        assert(self.len() == self@.len());
    }

    fn len(&self) -> (r: usize) {
        self.len()
    }

    fn get_item(&self, index: usize) -> (r: T) {
        self[index].clone()
    }
}

} // verus!
