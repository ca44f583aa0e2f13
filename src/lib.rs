//! A single-process data loader: samplers produce index orders, a batch sampler
//! groups them, and a loader fetches and collates the samples of each batch.
pub mod batch;
pub mod collate;
pub mod dataloader;
pub mod dataset;
pub mod sampler;

pub use batch::{BatchIterator, BatchSampler};
pub use collate::{Collate, DefaultCollate, NoOpCollate, StackedBatch};
pub use dataset::Dataset;
pub use dataloader::{DataLoader, DataLoaderBuilder, MapDatasetFetcher, SingleProcessDataLoaderIter};
pub use sampler::{
    IndexIterator, RandomSampler, RandomSamplerIter, Sampler, SequentialSampler,
    SequentialSamplerIter,
};
