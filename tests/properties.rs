use dataloader::{
    BatchSampler, DataLoader, DefaultCollate, IndexIterator, NoOpCollate, RandomSampler, Sampler,
    SequentialSampler,
};

fn all_batches<T: Clone>(loader: &DataLoader<Vec<T>, SequentialSampler, NoOpCollate>) -> Vec<Vec<T>> {
    let mut out = Vec::new();
    let mut iter = loader.iter();
    while let Some(b) = iter.next() {
        out.push(b);
    }
    out
}

fn numbers(n: i32) -> Vec<i32> {
    (0..n).collect()
}

#[test]
fn keeping_rest_yields_ceil_batches_and_every_sample() {
    let loader = DataLoader::builder(numbers(10))
        .batch_size(3)
        .with_collate_fn(NoOpCollate)
        .build();
    assert_eq!(loader.len(), 4);
    let batches = all_batches(&loader);
    let sizes: Vec<usize> = batches.iter().map(|b| b.len()).collect();
    assert_eq!(sizes, vec![3, 3, 3, 1]);
    assert_eq!(sizes.iter().sum::<usize>(), 10);
}

#[test]
fn dropping_rest_yields_floor_batches() {
    let loader = DataLoader::builder(numbers(10))
        .batch_size(3)
        .drop_last()
        .with_collate_fn(NoOpCollate)
        .build();
    assert_eq!(loader.len(), 3);
    let batches = all_batches(&loader);
    let sizes: Vec<usize> = batches.iter().map(|b| b.len()).collect();
    assert_eq!(sizes, vec![3, 3, 3]);
    assert_eq!(sizes.iter().sum::<usize>(), 9);
}

#[test]
fn sequential_batches_join_to_dataset_in_order() {
    let loader = DataLoader::builder(numbers(7))
        .batch_size(2)
        .with_collate_fn(NoOpCollate)
        .build();
    let joined: Vec<i32> = all_batches(&loader).into_iter().flatten().collect();
    assert_eq!(joined, numbers(7));
}

#[test]
fn shuffled_batches_join_to_a_permutation() {
    let loader = DataLoader::builder(numbers(20))
        .batch_size(3)
        .shuffle()
        .with_collate_fn(NoOpCollate)
        .build();
    assert_eq!(loader.len(), 7);
    for _ in 0..3 {
        let mut iter = loader.iter();
        let mut joined = Vec::new();
        let mut count = 0;
        while let Some(b) = iter.next() {
            joined.extend(b);
            count += 1;
        }
        assert_eq!(count, 7);
        joined.sort();
        assert_eq!(joined, numbers(20));
    }
}

#[test]
fn shuffling_changes_the_order() {
    let sampler = RandomSampler::new(50);
    let identity: Vec<usize> = (0..50).collect();
    let mut moved = false;
    for _ in 0..5 {
        let mut iter = sampler.into_iter();
        let mut order = Vec::new();
        while let Some(i) = iter.next() {
            order.push(i);
        }
        let mut sorted = order.clone();
        sorted.sort();
        assert_eq!(sorted, identity);
        if order != identity {
            moved = true;
        }
    }
    assert!(moved);
}

#[test]
fn sequential_iterations_agree() {
    let loader = DataLoader::builder(numbers(7))
        .batch_size(3)
        .with_collate_fn(NoOpCollate)
        .build();
    assert_eq!(all_batches(&loader), all_batches(&loader));
    assert_eq!(all_batches(&loader), vec![vec![0, 1, 2], vec![3, 4, 5], vec![6]]);
}

#[test]
fn drop_last_on_ten_numbers_in_pairs() {
    let dataset: Vec<i32> = (1..=10).collect();
    let loader = DataLoader::builder(dataset).batch_size(2).drop_last().build();
    assert_eq!(loader.len(), 5);
    let mut iter = loader.iter();
    for k in 0..5 {
        let b = iter.next().map(|b| b.to_vec());
        assert_eq!(b, Some(vec![2 * k + 1, 2 * k + 2]));
    }
    assert!(iter.next().is_none());
}

#[test]
fn default_loader_on_four_numbers() {
    let loader = DataLoader::builder(vec![1, 2, 3, 4]).batch_size(2).build();
    assert_eq!(loader.len(), 2);
    let mut iter = loader.iter();
    assert_eq!(iter.next().map(|b| b.to_vec()), Some(vec![1, 2]));
    assert_eq!(iter.next().map(|b| b.to_vec()), Some(vec![3, 4]));
    assert!(iter.next().is_none());
}

#[test]
fn stacked_batch_has_leading_dimension_of_batch_length() {
    let loader = DataLoader::builder(numbers(5)).batch_size(3).build();
    let mut iter = loader.iter();
    let first = iter.next().unwrap();
    assert_eq!(first.len(), 3);
    assert_eq!(first.to_vec(), vec![0, 1, 2]);
    let second = iter.next().unwrap();
    assert_eq!(second.len(), 2);
    assert_eq!(second.to_vec(), vec![3, 4]);
}

#[test]
fn empty_dataset_yields_nothing() {
    for drop in [false, true] {
        let loader = DataLoader::builder(Vec::<i32>::new())
            .batch_size(4)
            .with_collate_fn(NoOpCollate)
            .build()
            .drop_last(drop);
        assert_eq!(loader.len(), 0);
        assert!(loader.iter().next().is_none());
    }
}

#[test]
fn batch_larger_than_dataset() {
    let keep = DataLoader::builder(numbers(3))
        .batch_size(5)
        .with_collate_fn(NoOpCollate)
        .build();
    assert_eq!(keep.len(), 1);
    assert_eq!(all_batches(&keep), vec![vec![0, 1, 2]]);
    let drop = keep.drop_last(true);
    assert_eq!(drop.len(), 0);
    assert!(all_batches(&drop).is_empty());
}

#[test]
fn exact_multiple_is_the_same_either_way() {
    let keep = DataLoader::builder(numbers(6))
        .batch_size(3)
        .with_collate_fn(NoOpCollate)
        .build();
    let drop = DataLoader::builder(numbers(6))
        .batch_size(3)
        .with_collate_fn(NoOpCollate)
        .build()
        .drop_last(true);
    assert_eq!(keep.len(), 2);
    assert_eq!(drop.len(), 2);
    assert_eq!(all_batches(&keep), all_batches(&drop));
}

#[test]
fn exhausted_iterator_stays_exhausted() {
    let loader = DataLoader::builder(numbers(2))
        .batch_size(2)
        .with_collate_fn(NoOpCollate)
        .build();
    let mut iter = loader.iter();
    assert_eq!(iter.next(), Some(vec![0, 1]));
    assert_eq!(iter.next(), None);
    assert_eq!(iter.next(), None);
}

#[test]
fn reconfiguring_a_loader() {
    let loader = DataLoader::new_complete(numbers(5), SequentialSampler::new(5), NoOpCollate, 2);
    assert_eq!(loader.len(), 3);
    let loader = loader.with_batch_size(4).with_collate_fn(NoOpCollate);
    assert_eq!(loader.len(), 2);
    assert_eq!(all_batches(&loader), vec![vec![0, 1, 2, 3], vec![4]]);
    let loader = loader.drop_last(true);
    assert_eq!(all_batches(&loader), vec![vec![0, 1, 2, 3]]);
}

#[test]
fn loader_with_a_given_sampler() {
    let loader: DataLoader<Vec<String>, SequentialSampler, DefaultCollate> = DataLoader::with_sampler(
        vec![String::from("x"), String::from("y"), String::from("z")],
        SequentialSampler::new(3),
        2,
    );
    assert_eq!(loader.len(), 2);
    let mut iter = loader.iter();
    assert_eq!(iter.next(), Some(vec![String::from("x"), String::from("y")]));
    assert_eq!(iter.next(), Some(vec![String::from("z")]));
    assert_eq!(iter.next(), None);
}

#[test]
fn sequential_sampler_counts_down() {
    let sampler = SequentialSampler::new(4);
    assert_eq!(sampler.len(), 4);
    let mut iter = sampler.into_iter();
    assert_eq!(iter.len(), 4);
    assert_eq!(iter.next(), Some(0));
    assert_eq!(iter.next(), Some(1));
    assert_eq!(iter.len(), 2);
    assert_eq!(iter.next(), Some(2));
    assert_eq!(iter.next(), Some(3));
    assert_eq!(iter.next(), None);
    assert_eq!(iter.len(), 0);
}

#[test]
fn batch_sampler_groups_indices() {
    let bs = BatchSampler { sampler: SequentialSampler::new(5), batch_size: 2, drop_last: false };
    assert_eq!(bs.len(), 3);
    let mut iter = bs.iter();
    assert_eq!(iter.next(), Some(vec![0, 1]));
    assert_eq!(iter.next(), Some(vec![2, 3]));
    assert_eq!(iter.next(), Some(vec![4]));
    assert_eq!(iter.next(), None);
    let bs = BatchSampler { sampler: SequentialSampler::new(5), batch_size: 2, drop_last: true };
    assert_eq!(bs.len(), 2);
    let mut iter = bs.iter();
    assert_eq!(iter.next(), Some(vec![0, 1]));
    assert_eq!(iter.next(), Some(vec![2, 3]));
    assert_eq!(iter.next(), None);
    assert_eq!(iter.next(), None);
}
