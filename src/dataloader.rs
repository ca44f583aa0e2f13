//! The loader: a dataset, a batch sampler and a collation policy, and the
//! single-process iteration over them.
use crate::batch::{batches_of, lemma_batches_of_len, num_batches, BatchIterator, BatchSampler};
use crate::collate::{Collate, DefaultCollate};
use crate::dataset::Dataset;
use crate::sampler::{
    index_range, is_index_order, IndexIterator, RandomSampler, Sampler, SequentialSampler,
};
use vstd::prelude::*;

verus! {

/// `samples` are what the dataset yields at `indices`, in the same order.
pub open spec fn fetched<D: Dataset>(
    dataset: D,
    indices: Seq<usize>,
    samples: Seq<D::Sample>,
) -> bool {
    &&& samples.len() == indices.len()
    &&& forall|k: int|
        0 <= k < indices.len() ==> dataset.yields(#[trigger] indices[k] as int, samples[k])
}

/// `out` is what `collate_fn` makes of the samples at `indices`.
pub open spec fn collated_from<D: Dataset, C: Collate<D::Sample>>(
    collate_fn: C,
    dataset: D,
    indices: Seq<usize>,
    out: C::Output,
) -> bool {
    exists|samples: Seq<D::Sample>|
        fetched(dataset, indices, samples) && #[trigger] collate_fn.collates(samples, out)
}

/// Combines a dataset and a sampler, and iterates over the dataset in batches.
#[derive(Debug)]
pub struct DataLoader<D, S = SequentialSampler, C = DefaultCollate> {
    /// The dataset the samples are drawn from.
    pub dataset: D,
    /// Yields one batch of indices at a time.
    pub batch_sampler: BatchSampler<S>,
    /// Merges the samples of each batch.
    pub collate_fn: C,
}

impl<D: Dataset> DataLoader<D, SequentialSampler, DefaultCollate> {
    /// A builder with the defaults: batches of one, in order, the short rest
    /// kept, default collation.
    pub fn builder(dataset: D) -> (r: DataLoaderBuilder<D, SequentialSampler, DefaultCollate>)
        ensures
            r.wf(),
            r.dataset == dataset,
            r.batch_size == 1,
            !r.drop_last,
    {
        DataLoaderBuilder::new(dataset)
    }
}

impl<D: Dataset, S: Sampler> DataLoader<D, S, DefaultCollate> {
    /// A loader over `dataset` drawing indices from `sampler`, with default
    /// collation and the short rest kept.
    pub fn with_sampler(dataset: D, sampler: S, batch_size: usize) -> (r: Self)
        requires
            batch_size > 0,
            sampler.spec_len() == dataset.spec_len(),
        ensures
            r.wf(),
            r.dataset == dataset,
            r.batch_sampler.sampler == sampler,
            r.batch_sampler.batch_size == batch_size,
            !r.batch_sampler.drop_last,
    {
        Self::new_complete(dataset, sampler, DefaultCollate, batch_size)
    }
}

impl<D: Dataset, S: Sampler, C> DataLoader<D, S, C> {
    pub open spec fn wf(&self) -> bool {
        &&& self.batch_sampler.wf()
        &&& self.batch_sampler.sampler.spec_len() == self.dataset.spec_len()
    }

    /// Whether `schedule` is a sequence of index batches that one iteration
    /// over this loader may follow.
    pub open spec fn admits_schedule(&self, schedule: Seq<Seq<usize>>) -> bool {
        exists|order: Seq<usize>|
            #[trigger] self.batch_sampler.sampler.admits(order) && is_index_order(
                order,
                self.dataset.spec_len(),
            ) && schedule == batches_of(
                order,
                self.batch_sampler.batch_size as nat,
                self.batch_sampler.drop_last,
            )
    }

    pub fn new_complete(dataset: D, sampler: S, collate: C, batch_size: usize) -> (r: Self)
        requires
            batch_size > 0,
            sampler.spec_len() == dataset.spec_len(),
        ensures
            r.wf(),
            r.dataset == dataset,
            r.batch_sampler.sampler == sampler,
            r.batch_sampler.batch_size == batch_size,
            !r.batch_sampler.drop_last,
            r.collate_fn == collate,
    {
        DataLoader {
            dataset,
            batch_sampler: BatchSampler { sampler, batch_size, drop_last: false },
            collate_fn: collate,
        }
    }

    /// Sets whether a short final batch is dropped.
    pub fn drop_last(self, activate: bool) -> (r: Self)
        requires
            self.wf(),
        ensures
            r.wf(),
            r.batch_sampler.drop_last == activate,
            r.batch_sampler.batch_size == self.batch_sampler.batch_size,
            r.batch_sampler.sampler == self.batch_sampler.sampler,
            r.dataset == self.dataset,
            r.collate_fn == self.collate_fn,
    {
        let mut s = self;
        s.batch_sampler.drop_last = activate;
        s
    }

    /// Sets the number of samples per batch.
    pub fn with_batch_size(self, batch_size: usize) -> (r: Self)
        requires
            self.wf(),
            batch_size > 0,
        ensures
            r.wf(),
            r.batch_sampler.batch_size == batch_size,
            r.batch_sampler.drop_last == self.batch_sampler.drop_last,
            r.batch_sampler.sampler == self.batch_sampler.sampler,
            r.dataset == self.dataset,
            r.collate_fn == self.collate_fn,
    {
        let mut s = self;
        s.batch_sampler.batch_size = batch_size;
        s
    }

    /// Replaces the collation policy by another of the same kind.
    pub fn with_collate_fn(self, collate_fn: C) -> (r: Self)
        requires
            self.wf(),
        ensures
            r.wf(),
            r.collate_fn == collate_fn,
            r.batch_sampler.batch_size == self.batch_sampler.batch_size,
            r.batch_sampler.drop_last == self.batch_sampler.drop_last,
            r.batch_sampler.sampler == self.batch_sampler.sampler,
            r.dataset == self.dataset,
    {
        let mut s = self;
        s.collate_fn = collate_fn;
        s
    }

    /// The number of batches one iteration yields.
    pub fn len(&self) -> (r: usize)
        requires
            self.wf(),
        ensures
            r == num_batches(
                self.dataset.spec_len(),
                self.batch_sampler.batch_size as nat,
                self.batch_sampler.drop_last,
            ),
    {
        self.batch_sampler.len()
    }
}

impl<D: Dataset, S: Sampler + Copy, C: Collate<D::Sample>> DataLoader<D, S, C> {
    /// A fresh iteration over the whole dataset, which borrows the loader.
    pub fn iter(&self) -> (r: SingleProcessDataLoaderIter<'_, D, S, C>)
        requires
            self.wf(),
        ensures
            r.wf(),
            self.admits_schedule(r.batches()),
            r.dataset() == self.dataset,
            r.collate_fn() == self.collate_fn,
            r.num_yielded() == 0,
    {
        SingleProcessDataLoaderIter::new(self)
    }
}

/// Configures a `DataLoader` step by step.
#[derive(Debug)]
pub struct DataLoaderBuilder<D, S = SequentialSampler, C = DefaultCollate> {
    pub dataset: D,
    pub sampler: S,
    pub batch_size: usize,
    pub drop_last: bool,
    pub collate_fn: C,
}

impl<D: Dataset> DataLoaderBuilder<D, SequentialSampler, DefaultCollate> {
    pub fn new(dataset: D) -> (r: Self)
        ensures
            r.wf(),
            r.dataset == dataset,
            r.batch_size == 1,
            !r.drop_last,
    {
        let n = dataset.len();
        DataLoaderBuilder {
            dataset,
            sampler: SequentialSampler::new(n),
            batch_size: 1,
            drop_last: false,
            collate_fn: DefaultCollate,
        }
    }
}

impl<D: Dataset, S: Sampler, C> DataLoaderBuilder<D, S, C> {
    pub open spec fn wf(&self) -> bool {
        self.batch_size > 0 && self.sampler.spec_len() == self.dataset.spec_len()
    }

    /// Draws the indices in a fresh random order on each iteration.
    pub fn shuffle(self) -> (r: DataLoaderBuilder<D, RandomSampler, C>)
        requires
            self.wf(),
        ensures
            r.wf(),
            r.dataset == self.dataset,
            r.batch_size == self.batch_size,
            r.drop_last == self.drop_last,
            r.collate_fn == self.collate_fn,
    {
        let n = self.dataset.len();
        DataLoaderBuilder {
            dataset: self.dataset,
            sampler: RandomSampler::new(n),
            batch_size: self.batch_size,
            drop_last: self.drop_last,
            collate_fn: self.collate_fn,
        }
    }

    pub fn batch_size(self, batch_size: usize) -> (r: Self)
        requires
            self.wf(),
            batch_size > 0,
        ensures
            r.wf(),
            r.dataset == self.dataset,
            r.sampler == self.sampler,
            r.batch_size == batch_size,
            r.drop_last == self.drop_last,
            r.collate_fn == self.collate_fn,
    {
        let mut s = self;
        s.batch_size = batch_size;
        s
    }

    /// Drops a short final batch.
    pub fn drop_last(self) -> (r: Self)
        requires
            self.wf(),
        ensures
            r.wf(),
            r.dataset == self.dataset,
            r.sampler == self.sampler,
            r.batch_size == self.batch_size,
            r.drop_last,
            r.collate_fn == self.collate_fn,
    {
        let mut s = self;
        s.drop_last = true;
        s
    }

    /// Merges batches with `collate_fn` instead.
    pub fn with_collate_fn<CF>(self, collate_fn: CF) -> (r: DataLoaderBuilder<D, S, CF>)
        requires
            self.wf(),
        ensures
            r.wf(),
            r.dataset == self.dataset,
            r.sampler == self.sampler,
            r.batch_size == self.batch_size,
            r.drop_last == self.drop_last,
            r.collate_fn == collate_fn,
    {
        DataLoaderBuilder {
            dataset: self.dataset,
            sampler: self.sampler,
            batch_size: self.batch_size,
            drop_last: self.drop_last,
            collate_fn,
        }
    }

    pub fn build(self) -> (r: DataLoader<D, S, C>)
        requires
            self.wf(),
        ensures
            r.wf(),
            r.dataset == self.dataset,
            r.batch_sampler.sampler == self.sampler,
            r.batch_sampler.batch_size == self.batch_size,
            r.batch_sampler.drop_last == self.drop_last,
            r.collate_fn == self.collate_fn,
    {
        DataLoader {
            dataset: self.dataset,
            batch_sampler: BatchSampler {
                sampler: self.sampler,
                batch_size: self.batch_size,
                drop_last: self.drop_last,
            },
            collate_fn: self.collate_fn,
        }
    }
}

/// Resolves a batch of indices against a dataset and collates the samples.
pub struct MapDatasetFetcher<'a, D, C> {
    pub dataset: &'a D,
    pub collate_fn: &'a C,
}

impl<'a, D: Dataset, C: Collate<D::Sample>> MapDatasetFetcher<'a, D, C> {
    /// Reads the samples at `indices`, in order, and collates them.
    pub fn fetch(&self, indices: Vec<usize>) -> (r: C::Output)
        requires
            forall|k: int| 0 <= k < indices.len() ==> #[trigger] indices[k] < self.dataset.spec_len(),
        ensures
            collated_from(*self.collate_fn, *self.dataset, indices@, r),
    {
        let mut samples: Vec<D::Sample> = Vec::new();
        let mut k: usize = 0;
        while k < indices.len()
            invariant
                k <= indices.len(),
                forall|j: int| 0 <= j < indices.len() ==> #[trigger] indices[j] < self.dataset.spec_len(),
                fetched(*self.dataset, indices@.take(k as int), samples@),
            decreases indices.len() - k,
        {
            let item = self.dataset.get_item(indices[k]);
            samples.push(item);
            k = k + 1;
            assert(fetched(*self.dataset, indices@.take(k as int), samples@));
        }
        assert(indices@.take(k as int) =~= indices@);
        let ghost s = samples@;
        let r = self.collate_fn.collate(samples);
        assert(fetched(*self.dataset, indices@, s) && self.collate_fn.collates(s, r));
        r
    }
}

/// One iteration over a loader, on the calling thread.
pub struct SingleProcessDataLoaderIter<'a, D, S: Sampler = SequentialSampler, C = DefaultCollate> {
    sampler_iter: BatchIterator<S::IntoIter>,
    num_yielded: u64,
    data_fetcher: MapDatasetFetcher<'a, D, C>,
}

impl<'a, D: Dataset, S: Sampler + Copy, C: Collate<D::Sample>> SingleProcessDataLoaderIter<'a, D, S, C> {
    /// The index batches still to come.
    pub closed spec fn batches(&self) -> Seq<Seq<usize>> {
        self.sampler_iter.batches()
    }

    /// The dataset being iterated.
    pub closed spec fn dataset(&self) -> D {
        *self.data_fetcher.dataset
    }

    pub closed spec fn collate_fn(&self) -> C {
        *self.data_fetcher.collate_fn
    }

    /// How many batches have been yielded so far.
    pub closed spec fn num_yielded(&self) -> nat {
        self.num_yielded as nat
    }

    pub closed spec fn wf(&self) -> bool {
        let rem = self.sampler_iter.sampler.remaining();
        &&& self.sampler_iter.wf()
        &&& forall|i: int| 0 <= i < rem.len() ==> #[trigger] rem[i] < self.data_fetcher.dataset.spec_len()
        &&& self.num_yielded + rem.len() <= usize::MAX
    }

    fn new(loader: &'a DataLoader<D, S, C>) -> (r: Self)
        requires
            loader.wf(),
        ensures
            r.wf(),
            loader.admits_schedule(r.batches()),
            r.dataset() == loader.dataset,
            r.collate_fn() == loader.collate_fn,
            r.num_yielded() == 0,
    {
        proof {
            loader.dataset.lemma_len_fits();
        }
        let sampler_iter = loader.batch_sampler.iter();
        let r = SingleProcessDataLoaderIter {
            sampler_iter,
            num_yielded: 0,
            data_fetcher: MapDatasetFetcher {
                dataset: &loader.dataset,
                collate_fn: &loader.collate_fn,
            },
        };
        assert(loader.batch_sampler.sampler.admits(sampler_iter.sampler.remaining()));
        r
    }

    /// The next batch of indices, if any.
    fn next_index(&mut self) -> (r: Option<Vec<usize>>)
        requires
            old(self).wf(),
        ensures
            final(self).dataset() == old(self).dataset(),
            final(self).collate_fn() == old(self).collate_fn(),
            final(self).num_yielded() == old(self).num_yielded(),
            r is None <==> old(self).batches().len() == 0,
            r is None ==> final(self).wf() && final(self).batches().len() == 0,
            r is Some ==> {
                &&& r->0@ == old(self).batches()[0]
                &&& final(self).batches() == old(self).batches().drop_first()
                &&& forall|k: int| 0 <= k < r->0.len() ==> #[trigger] r->0[k] < final(self).dataset().spec_len()
                &&& final(self).num_yielded() < u64::MAX
                &&& final(self).num_yielded() + 1 + final(self).sampler_iter.sampler.remaining().len() <= usize::MAX
                &&& final(self).sampler_iter.wf()
                &&& forall|i: int| 0 <= i < final(self).sampler_iter.sampler.remaining().len()
                    ==> #[trigger] final(self).sampler_iter.sampler.remaining()[i] < final(self).dataset().spec_len()
            },
    {
        let ghost rem0 = self.sampler_iter.sampler.remaining();
        let r = self.sampler_iter.next();
        proof {
            if r is Some {
                let b = r->0@;
                assert forall|k: int| 0 <= k < b.len() implies #[trigger] b[k] < self.dataset().spec_len() by {
                    assert(rem0[k] == b[k]);
                }
                let rem1 = self.sampler_iter.sampler.remaining();
                assert forall|i: int| 0 <= i < rem1.len() implies #[trigger] rem1[i] < self.dataset().spec_len() by {
                    assert(rem0[b.len() + i] == rem1[i]);
                }
                assert((usize::MAX as int) <= (u64::MAX as int));
            }
        }
        r
    }

    /// Fetches and collates the next batch, if any.
    fn next_data(&mut self) -> (r: Option<C::Output>)
        requires
            old(self).wf(),
        ensures
            final(self).dataset() == old(self).dataset(),
            final(self).collate_fn() == old(self).collate_fn(),
            final(self).num_yielded() == old(self).num_yielded(),
            r is None <==> old(self).batches().len() == 0,
            r is None ==> final(self).wf() && final(self).batches().len() == 0,
            r is Some ==> {
                &&& final(self).batches() == old(self).batches().drop_first()
                &&& collated_from(old(self).collate_fn(), old(self).dataset(), old(self).batches()[0], r->0)
                &&& final(self).num_yielded() < u64::MAX
                &&& final(self).num_yielded() + 1 + final(self).sampler_iter.sampler.remaining().len() <= usize::MAX
                &&& final(self).sampler_iter.wf()
                &&& forall|i: int| 0 <= i < final(self).sampler_iter.sampler.remaining().len()
                    ==> #[trigger] final(self).sampler_iter.sampler.remaining()[i] < final(self).dataset().spec_len()
            },
    {
        let index = self.next_index();
        if let Some(index) = index {
            let data = self.data_fetcher.fetch(index);
            return Some(data);
        }
        None
    }

    /// Yields the next collated batch, or `None` once the iteration is over;
    /// after that it yields `None` again on every call.
    pub fn next(&mut self) -> (r: Option<C::Output>)
        requires
            old(self).wf(),
        ensures
            final(self).wf(),
            final(self).dataset() == old(self).dataset(),
            final(self).collate_fn() == old(self).collate_fn(),
            r is None <==> old(self).batches().len() == 0,
            r is None ==> final(self).batches().len() == 0 && final(self).num_yielded()
                == old(self).num_yielded(),
            r is Some ==> {
                &&& final(self).batches() == old(self).batches().drop_first()
                &&& final(self).num_yielded() == old(self).num_yielded() + 1
                &&& collated_from(old(self).collate_fn(), old(self).dataset(), old(self).batches()[0], r->0)
            },
    {
        let data = self.next_data();
        if let Some(data) = data {
            self.num_yielded = self.num_yielded + 1;
            return Some(data);
        }
        None
    }
}

/// Keeping the short rest, one iteration yields `ceil(L / B)` batches (what
/// `len` reports), and together they hold all `L` indices.
pub proof fn lemma_iteration_keeps_every_index<D: Dataset, S: Sampler, C>(
    loader: DataLoader<D, S, C>,
    schedule: Seq<Seq<usize>>,
)
    requires
        loader.wf(),
        !loader.batch_sampler.drop_last,
        loader.admits_schedule(schedule),
    ensures
        schedule.len() == num_batches(
            loader.dataset.spec_len(),
            loader.batch_sampler.batch_size as nat,
            false,
        ),
        schedule.len() == (loader.dataset.spec_len() + loader.batch_sampler.batch_size - 1)
            / (loader.batch_sampler.batch_size as int),
        schedule.flatten().len() == loader.dataset.spec_len(),
{
    let order = choose|order: Seq<usize>|
        #[trigger] loader.batch_sampler.sampler.admits(order) && is_index_order(
            order,
            loader.dataset.spec_len(),
        ) && schedule == batches_of(order, loader.batch_sampler.batch_size as nat, false);
    lemma_batches_of_len(order, loader.batch_sampler.batch_size as nat, false);
}

/// Dropping the short rest, one iteration yields `floor(L / B)` batches (what
/// `len` reports), and together they hold `floor(L / B) * B` indices.
pub proof fn lemma_iteration_drops_short_rest<D: Dataset, S: Sampler, C>(
    loader: DataLoader<D, S, C>,
    schedule: Seq<Seq<usize>>,
)
    requires
        loader.wf(),
        loader.batch_sampler.drop_last,
        loader.admits_schedule(schedule),
    ensures
        schedule.len() == num_batches(
            loader.dataset.spec_len(),
            loader.batch_sampler.batch_size as nat,
            true,
        ),
        schedule.len() == loader.dataset.spec_len() / (loader.batch_sampler.batch_size as nat),
        schedule.flatten().len() == (loader.dataset.spec_len() / (loader.batch_sampler.batch_size as nat))
            * (loader.batch_sampler.batch_size as nat),
{
    let b = loader.batch_sampler.batch_size as nat;
    let n = loader.dataset.spec_len();
    let order = choose|order: Seq<usize>|
        #[trigger] loader.batch_sampler.sampler.admits(order) && is_index_order(order, n)
            && schedule == batches_of(order, b, true);
    lemma_batches_of_len(order, b, true);
    assert((n / b) * b <= n) by (nonlinear_arith)
        requires
            b > 0,
    {
        vstd::arithmetic::div_mod::lemma_fundamental_div_mod(n as int, b as int);
    }
}

/// Iterating in order, the batches joined end to end are `0, 1, ..., L - 1`,
/// cut after the last full batch when the short rest is dropped.
pub proof fn lemma_sequential_iteration_in_order<D: Dataset, C>(
    loader: DataLoader<D, SequentialSampler, C>,
    schedule: Seq<Seq<usize>>,
)
    requires
        loader.wf(),
        loader.admits_schedule(schedule),
    ensures
        !loader.batch_sampler.drop_last ==> schedule.flatten() == index_range(
            loader.dataset.spec_len(),
        ),
        loader.batch_sampler.drop_last ==> schedule.flatten() == index_range(
            loader.dataset.spec_len(),
        ).take(
            ((loader.dataset.spec_len() / (loader.batch_sampler.batch_size as nat))
                * (loader.batch_sampler.batch_size as nat)) as int,
        ),
{
    let b = loader.batch_sampler.batch_size as nat;
    let dl = loader.batch_sampler.drop_last;
    let order = choose|order: Seq<usize>|
        #[trigger] loader.batch_sampler.sampler.admits(order) && is_index_order(
            order,
            loader.dataset.spec_len(),
        ) && schedule == batches_of(order, b, dl);
    loader.batch_sampler.sampler.lemma_admits(order);
    lemma_batches_of_len(order, b, dl);
}

/// Keeping the short rest, the batches of any one iteration joined end to end
/// are a permutation of `0, 1, ..., L - 1`, whatever order the sampler chose.
pub proof fn lemma_iteration_is_permutation<D: Dataset, S: Sampler, C>(
    loader: DataLoader<D, S, C>,
    schedule: Seq<Seq<usize>>,
)
    requires
        loader.wf(),
        !loader.batch_sampler.drop_last,
        loader.admits_schedule(schedule),
    ensures
        schedule.flatten().to_multiset() == index_range(loader.dataset.spec_len()).to_multiset(),
{
    let order = choose|order: Seq<usize>|
        #[trigger] loader.batch_sampler.sampler.admits(order) && is_index_order(
            order,
            loader.dataset.spec_len(),
        ) && schedule == batches_of(order, loader.batch_sampler.batch_size as nat, false);
    lemma_batches_of_len(order, loader.batch_sampler.batch_size as nat, false);
}

/// Iterating in order, any two iterations over one unchanged loader follow the
/// same index batches, so by the contract of `next` they collate the same items.
pub proof fn lemma_sequential_iterations_agree<D: Dataset, C>(
    loader: DataLoader<D, SequentialSampler, C>,
    first: Seq<Seq<usize>>,
    second: Seq<Seq<usize>>,
)
    requires
        loader.wf(),
        loader.admits_schedule(first),
        loader.admits_schedule(second),
    ensures
        first == second,
{
    let b = loader.batch_sampler.batch_size as nat;
    let dl = loader.batch_sampler.drop_last;
    let n = loader.dataset.spec_len();
    let o1 = choose|order: Seq<usize>|
        #[trigger] loader.batch_sampler.sampler.admits(order) && is_index_order(order, n)
            && first == batches_of(order, b, dl);
    let o2 = choose|order: Seq<usize>|
        #[trigger] loader.batch_sampler.sampler.admits(order) && is_index_order(order, n)
            && second == batches_of(order, b, dl);
    loader.batch_sampler.sampler.lemma_admits(o1);
    loader.batch_sampler.sampler.lemma_admits(o2);
}

} // verus!
