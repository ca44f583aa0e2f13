//! Grouping a stream of indices into fixed-size batches.
use crate::sampler::{IndexIterator, Sampler};
use vstd::prelude::*;

verus! {

/// The batches that grouping `s` into chunks of `b` produces: full chunks in
/// order, then the short rest, unless `drop_last` discards it.
pub open spec fn batches_of(s: Seq<usize>, b: nat, drop_last: bool) -> Seq<Seq<usize>>
    decreases s.len(),
{
    if b == 0 || s.len() == 0 {
        seq![]
    } else if s.len() < b {
        if drop_last {
            seq![]
        } else {
            seq![s]
        }
    } else {
        seq![s.take(b as int)] + batches_of(s.skip(b as int), b, drop_last)
    }
}

/// The number of batches over `len` indices: `floor(len / b)` when the short
/// rest is dropped, `ceil(len / b)` otherwise.
pub open spec fn num_batches(len: nat, b: nat, drop_last: bool) -> nat
    recommends
        b > 0,
{
    if drop_last {
        len / b
    } else {
        ((len + b - 1) / (b as int)) as nat
    }
}

/// How many batches grouping yields, and how many indices they hold together.
pub proof fn lemma_batches_of_len(s: Seq<usize>, b: nat, drop_last: bool)
    requires
        b > 0,
    ensures
        batches_of(s, b, drop_last).len() == num_batches(s.len(), b, drop_last),
        drop_last ==> batches_of(s, b, drop_last).flatten() == s.take(((s.len() / b) * b) as int),
        !drop_last ==> batches_of(s, b, drop_last).flatten() == s,
    decreases s.len(),
{
    let bs = batches_of(s, b, drop_last);
    if s.len() == 0 {
        assert(s.take(0) =~= s);
        assert(bs.flatten() =~= s);
        vstd::arithmetic::div_mod::lemma_basic_div_specific_divisor(b as int);
        assert((b as int - 1) / (b as int) == 0);
        assert(drop_last ==> bs.flatten() == s.take(((s.len() / b) * b) as int));
    } else if s.len() < b {
        assert((s.len() + b - 1) / (b as int) == 1) by (nonlinear_arith)
            requires
                0 < s.len() < b,
        ;
        assert(s.len() / b == 0) by (nonlinear_arith)
            requires
                s.len() < b,
        ;
        assert(seq![s].drop_first() =~= seq![]);
        seq![s].lemma_flatten_one_element();
        assert(s.take(0) =~= seq![]);
        if drop_last {
            assert(bs.flatten() =~= s.take(0));
        }
        assert(drop_last ==> bs.flatten() == s.take(((s.len() / b) * b) as int));
    } else {
        let rest = s.skip(b as int);
        lemma_batches_of_len(rest, b, drop_last);
        let tail = batches_of(rest, b, drop_last);
        assert(bs.drop_first() =~= tail);
        assert(bs.flatten() == s.take(b as int) + tail.flatten());
        let n = s.len() as int;
        let bi = b as int;
        assert(n / bi == (n - bi) / bi + 1 && (n + bi - 1) / bi == (n - bi + bi - 1) / bi + 1)
            by {
            vstd::arithmetic::div_mod::lemma_div_plus_one(n - bi, bi);
            vstd::arithmetic::div_mod::lemma_div_plus_one(n - bi + bi - 1, bi);
        }
        if drop_last {
            let k = ((rest.len() / b) * b) as int;
            assert((n / bi) * bi == k + bi) by (nonlinear_arith)
                requires
                    n / bi == (rest.len() as int) / bi + 1,
                    k == ((rest.len() as int) / bi) * bi,
            ;
            assert(k <= rest.len()) by (nonlinear_arith)
                requires
                    k == ((rest.len() as int) / bi) * bi,
                    bi > 0,
            {
                vstd::arithmetic::div_mod::lemma_fundamental_div_mod(rest.len() as int, bi);
            }
            assert(s.take(b as int) + rest.take(k) =~= s.take(k + b));
            assert(((s.len() / b) * b) as int == k + b);
            assert(drop_last ==> bs.flatten() == s.take(((s.len() / b) * b) as int));
        } else {
            assert(s.take(b as int) + rest =~= s);
        }
    }
}

/// Groups the indices of a sampler into batches of `batch_size`; a final short
/// batch is yielded unless `drop_last` is set.
#[derive(Debug)]
pub struct BatchSampler<S> {
    pub sampler: S,
    pub batch_size: usize,
    pub drop_last: bool,
}

impl<S: Sampler> BatchSampler<S> {
    pub open spec fn wf(&self) -> bool {
        self.batch_size > 0
    }

    /// The number of batches one iteration yields.
    pub fn len(&self) -> (r: usize)
        requires
            self.wf(),
        ensures
            r == num_batches(self.sampler.spec_len(), self.batch_size as nat, self.drop_last),
    {
        let n = self.sampler.len();
        let b = self.batch_size;
        if self.drop_last {
            n / b
        } else {
            let q = n / b;
            let ghost (ni, bi, qi) = (n as int, b as int, q as int);
            proof {
                vstd::arithmetic::div_mod::lemma_fundamental_div_mod(ni, bi);
            }
            if n % b == 0 {
                assert((ni + bi - 1) / bi == qi) by {
                    assert(ni + bi - 1 == qi * bi + (bi - 1)) by (nonlinear_arith)
                        requires
                            ni == bi * qi + ni % bi,
                            ni % bi == 0,
                    ;
                    vstd::arithmetic::div_mod::lemma_fundamental_div_mod_converse(
                        ni + bi - 1, bi, qi, bi - 1);
                }
                q
            } else {
                assert((ni + bi - 1) / bi == qi + 1) by {
                    assert(ni + bi - 1 == (qi + 1) * bi + (ni % bi - 1)) by (nonlinear_arith)
                        requires
                            ni == bi * qi + ni % bi,
                    ;
                    vstd::arithmetic::div_mod::lemma_fundamental_div_mod_converse(
                        ni + bi - 1, bi, qi + 1, ni % bi - 1);
                }
                assert(qi < ni) by (nonlinear_arith)
                    requires
                        ni == bi * qi + ni % bi,
                        ni % bi > 0,
                        bi > 0,
                        qi >= 0,
                ;
                q + 1
            }
        }
    }
}

impl<S: Sampler + Copy> BatchSampler<S> {
    /// Spawns a fresh stream of batches over a fresh stream of indices.
    pub fn iter(&self) -> (r: BatchIterator<S::IntoIter>)
        requires
            self.wf(),
        ensures
            r.wf(),
            r.batch_size == self.batch_size,
            r.drop_last == self.drop_last,
            self.sampler.admits(r.sampler.remaining()),
            crate::sampler::is_index_order(r.sampler.remaining(), self.sampler.spec_len()),
    {
        BatchIterator {
            sampler: self.sampler.into_iter(),
            batch_size: self.batch_size,
            drop_last: self.drop_last,
        }
    }
}

/// A live stream of index batches.
pub struct BatchIterator<I> {
    pub sampler: I,
    pub batch_size: usize,
    pub drop_last: bool,
}

impl<I: IndexIterator> BatchIterator<I> {
    pub open spec fn wf(&self) -> bool {
        self.batch_size > 0 && self.sampler.wf()
    }

    /// The batches still to come.
    pub open spec fn batches(&self) -> Seq<Seq<usize>> {
        batches_of(self.sampler.remaining(), self.batch_size as nat, self.drop_last)
    }

    /// Pulls up to `batch_size` indices; yields them unless there are none, or
    /// they are a short final batch and `drop_last` is set.
    pub fn next(&mut self) -> (r: Option<Vec<usize>>)
        requires
            old(self).wf(),
        ensures
            final(self).wf(),
            final(self).batch_size == old(self).batch_size,
            final(self).drop_last == old(self).drop_last,
            r is None <==> old(self).batches().len() == 0,
            r is Some ==> r->0.len() > 0,
            r is Some ==> r->0@ == old(self).batches()[0] && final(self).batches()
                == old(self).batches().drop_first() && old(self).sampler.remaining() == r->0@
                + final(self).sampler.remaining(),
            r is None ==> final(self).sampler.remaining().len() == 0,
    {
        let ghost s0 = self.sampler.remaining();
        let mut batch: Vec<usize> = Vec::new();
        let mut exhausted = false;
        while batch.len() < self.batch_size && !exhausted
            invariant
                self.wf(),
                self.batch_size == old(self).batch_size,
                self.drop_last == old(self).drop_last,
                s0 == old(self).sampler.remaining(),
                batch@ + self.sampler.remaining() == s0,
                batch.len() <= self.batch_size,
                exhausted ==> self.sampler.remaining().len() == 0,
            decreases self.batch_size - batch.len() + if exhausted { 0int } else { 1int },
        {
            let ghost before = batch@;
            match self.sampler.next() {
                Some(i) => {
                    batch.push(i);
                    let ghost pulled = seq![i] + self.sampler.remaining();
                    assert(batch@ + self.sampler.remaining() =~= before + pulled);
                    assert(pulled =~= s0.skip(before.len() as int));
                    assert(before + s0.skip(before.len() as int) =~= s0);
                },
                None => {
                    exhausted = true;
                },
            }
        }
        let b = self.batch_size;
        if batch.len() == 0 {
            assert(s0 =~= self.sampler.remaining());
            None
        } else if batch.len() < b {
            assert(s0 =~= batch@);
            if self.drop_last {
                None
            } else {
                assert(batches_of(s0, b as nat, false) =~= seq![s0]);
                assert(self.batches() =~= seq![]);
                assert(batch@ + self.sampler.remaining() =~= batch@);
                Some(batch)
            }
        } else {
            assert(s0.take(b as int) =~= batch@);
            assert(s0.skip(b as int) =~= self.sampler.remaining());
            Some(batch)
        }
    }
}

} // verus!
