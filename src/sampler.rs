//! Samplers: policies that turn a data-source length into an order of indices.
use rand::seq::SliceRandom;
use vstd::prelude::*;

verus! {

/// The indices `0, 1, ..., n - 1` in ascending order.
pub open spec fn index_range(n: nat) -> Seq<usize> {
    Seq::new(n, |i: int| i as usize)
}

/// `s` visits each index of `0..n` exactly once, in some order.
pub open spec fn is_index_order(s: Seq<usize>, n: nat) -> bool {
    &&& s.len() == n
    &&& s.to_multiset() == index_range(n).to_multiset()
    &&& forall|i: int| 0 <= i < s.len() ==> (#[trigger] s[i] as nat) < n
}

/// A finite, pull-based stream of indices.
pub trait IndexIterator: Sized {
    /// The indices still to come, in the order they will come.
    spec fn remaining(&self) -> Seq<usize>;

    spec fn wf(&self) -> bool;

    /// Pulls the next index, or `None` once the stream is exhausted.
    fn next(&mut self) -> (r: Option<usize>)
        requires
            old(self).wf(),
        ensures
            final(self).wf(),
            old(self).remaining().len() == 0 ==> r is None && final(self).remaining()
                == old(self).remaining(),
            old(self).remaining().len() > 0 ==> r == Some(old(self).remaining()[0])
                && final(self).remaining() == old(self).remaining().drop_first(),
    ;

    /// The number of indices still to come.
    fn len(&self) -> (r: usize)
        requires
            self.wf(),
        ensures
            r == self.remaining().len(),
    ;
}

/// A sampling policy over a data source of a fixed length; each call of
/// `into_iter` spawns a fresh, independent stream of indices.
pub trait Sampler: Sized {
    type IntoIter: IndexIterator;

    /// The length of the data source.
    spec fn spec_len(&self) -> nat;

    /// Whether `order` is an index order that this policy may produce.
    spec fn admits(&self, order: Seq<usize>) -> bool;

    fn new(data_source_len: usize) -> (r: Self)
        ensures
            r.spec_len() == data_source_len,
    ;

    fn len(&self) -> (r: usize)
        ensures
            r == self.spec_len(),
    ;

    fn into_iter(self) -> (r: Self::IntoIter)
        ensures
            r.wf(),
            self.admits(r.remaining()),
            is_index_order(r.remaining(), self.spec_len()),
    ;
}

/// Yields `0, 1, ..., data_source_len - 1` in order.
#[derive(Debug, Clone, Copy, PartialEq, Eq, Hash)]
pub struct SequentialSampler {
    data_source_len: usize,
}

/// The stream of a `SequentialSampler`: the range `next..end`.
#[derive(Debug)]
pub struct SequentialSamplerIter {
    next: usize,
    end: usize,
}

impl IndexIterator for SequentialSamplerIter {
    closed spec fn remaining(&self) -> Seq<usize> {
        Seq::new((self.end - self.next) as nat, |i: int| (self.next + i) as usize)
    }

    closed spec fn wf(&self) -> bool {
        self.next <= self.end
    }

    fn next(&mut self) -> (r: Option<usize>) {
        if self.next < self.end {
            let i = self.next;
            self.next = self.next + 1;
            assert(self.remaining() =~= old(self).remaining().drop_first());
            Some(i)
        } else {
            None
        }
    }

    fn len(&self) -> (r: usize) {
        self.end - self.next
    }
}

impl Sampler for SequentialSampler {
    type IntoIter = SequentialSamplerIter;

    closed spec fn spec_len(&self) -> nat {
        self.data_source_len as nat
    }

    closed spec fn admits(&self, order: Seq<usize>) -> bool {
        order == index_range(self.data_source_len as nat)
    }

    fn new(data_source_len: usize) -> (r: Self) {
        SequentialSampler { data_source_len }
    }

    fn len(&self) -> (r: usize) {
        self.data_source_len
    }

    fn into_iter(self) -> (r: SequentialSamplerIter) {
        let r = SequentialSamplerIter { next: 0, end: self.data_source_len };
        assert(r.remaining() =~= index_range(self.data_source_len as nat));
        r
    }
}

impl SequentialSampler {
    /// The only order a sequential sampler produces is the ascending one.
    pub proof fn lemma_admits(self, order: Seq<usize>)
        ensures
            self.admits(order) <==> order == index_range(self.spec_len()),
    {
    }
}

/// Yields the indices `0..data_source_len` in a random order, drawn anew for
/// each stream.
#[derive(Debug, Clone, Copy, PartialEq, Eq, Hash)]
pub struct RandomSampler {
    data_source_len: usize,
}

/// The stream of a `RandomSampler`: a permutation of the indices and a cursor.
#[derive(Debug)]
pub struct RandomSamplerIter {
    indexes: Vec<usize>,
    idx: usize,
}

/// Relies on `rand::seq::SliceRandom::shuffle` with the thread-local generator
/// of `rand::rng`: it only swaps elements, so the result holds the same
/// elements, each as often as before.
#[verifier::external_body]
fn shuffle_in_place(v: &mut Vec<usize>)
    ensures
        final(v)@.to_multiset() == old(v)@.to_multiset(),
{
    v.shuffle(&mut rand::rng());
}

impl IndexIterator for RandomSamplerIter {
    closed spec fn remaining(&self) -> Seq<usize> {
        self.indexes@.skip(self.idx as int)
    }

    closed spec fn wf(&self) -> bool {
        self.idx <= self.indexes.len()
    }

    fn next(&mut self) -> (r: Option<usize>) {
        if self.idx < self.indexes.len() {
            self.idx = self.idx + 1;
            assert(self.remaining() =~= old(self).remaining().drop_first());
            Some(self.indexes[self.idx - 1])
        } else {
            None
        }
    }

    fn len(&self) -> (r: usize) {
        self.indexes.len() - self.idx
    }
}

impl RandomSamplerIter {
    /// A fresh stream over a uniformly shuffled permutation of `0..data_source_len`.
    fn new(data_source_len: usize) -> (r: Self)
        ensures
            r.wf(),
            r.idx == 0,
            is_index_order(r.remaining(), data_source_len as nat),
    {
        let mut vec: Vec<usize> = Vec::new();
        let mut i: usize = 0;
        while i < data_source_len
            invariant
                i <= data_source_len,
                vec@ =~= index_range(i as nat),
            decreases data_source_len - i,
        {
            vec.push(i);
            i = i + 1;
            assert(vec@ =~= index_range(i as nat));
        }
        let ghost before = vec@;
        shuffle_in_place(&mut vec);
        proof {
            before.to_multiset_ensures();
            vec@.to_multiset_ensures();
            assert forall|k: int| 0 <= k < vec@.len() implies (#[trigger] vec@[k] as nat)
                < data_source_len by {
                assert(vec@.contains(vec@[k]));
                assert(before.to_multiset().count(vec@[k]) > 0);
                assert(before.contains(vec@[k]));
            }
        }
        let r = RandomSamplerIter { indexes: vec, idx: 0 };
        assert(r.remaining() =~= vec@);
        r
    }
}

impl Sampler for RandomSampler {
    type IntoIter = RandomSamplerIter;

    closed spec fn spec_len(&self) -> nat {
        self.data_source_len as nat
    }

    closed spec fn admits(&self, order: Seq<usize>) -> bool {
        is_index_order(order, self.data_source_len as nat)
    }

    fn new(data_source_len: usize) -> (r: Self) {
        RandomSampler { data_source_len }
    }

    fn len(&self) -> (r: usize) {
        self.data_source_len
    }

    fn into_iter(self) -> (r: RandomSamplerIter) {
        RandomSamplerIter::new(self.data_source_len)
    }
}

} // verus!
