use dataloader::{DataLoader, NoOpCollate, StackedBatch};

fn stacked(b: Option<StackedBatch>) -> Option<Vec<i32>> {
    b.map(|b| b.to_vec())
}

#[test]
fn mod_len() {
    let dataset = vec![1, 2, 3, 4, 5, 6, 7, 8, 9, 10];
    let dataloader = DataLoader::builder(dataset)
        .batch_size(2)
        .drop_last()
        .build();
    assert_eq!(dataloader.len(), dataloader.batch_sampler.len());
    assert_eq!(dataloader.len(), 5);
}

#[test]
fn one_dimension_basic() {
    let dataset = vec![1, 2, 3, 4, 5, 6, 7, 8, 9, 10];
    let dataloader = DataLoader::builder(dataset).batch_size(2).build();

    let mut iter = dataloader.iter();
    assert_eq!(stacked(iter.next()), Some(vec![1, 2]));
    assert_eq!(stacked(iter.next()), Some(vec![3, 4]));
    assert_eq!(stacked(iter.next()), Some(vec![5, 6]));
    assert_eq!(stacked(iter.next()), Some(vec![7, 8]));
    assert_eq!(stacked(iter.next()), Some(vec![9, 10]));
    assert_eq!(stacked(iter.next()), None);
}

#[test]
fn two_iteration() {
    let dataset = vec![1, 2, 3, 4];
    let dataloader = DataLoader::builder(dataset).batch_size(2).build();

    let mut iter = dataloader.iter();
    assert_eq!(stacked(iter.next()), Some(vec![1, 2]));
    assert_eq!(stacked(iter.next()), Some(vec![3, 4]));
    assert_eq!(stacked(iter.next()), None);
    let mut iter = dataloader.iter();
    assert_eq!(stacked(iter.next()), Some(vec![1, 2]));
    assert_eq!(stacked(iter.next()), Some(vec![3, 4]));
    assert_eq!(stacked(iter.next()), None);
}

#[test]
fn one_dimension_basic_string() {
    let dataset = vec![String::from("a"), String::from("b")];
    let dataloader = DataLoader::builder(dataset).build();

    let mut iter = dataloader.iter();
    assert_eq!(iter.next(), Some(vec![String::from("a")]));
    assert_eq!(iter.next(), Some(vec![String::from("b")]));
    assert_eq!(iter.next(), None);
}

#[test]
fn collate() {
    let dataset = vec![1, 2, 3, 4, 5, 6, 7, 8, 9, 10];

    let dataloader = DataLoader::builder(dataset)
        .batch_size(2)
        .with_collate_fn(NoOpCollate)
        .build();

    let mut iter = dataloader.iter();

    assert_eq!(iter.next(), Some(vec![1, 2]));
    assert_eq!(iter.next(), Some(vec![3, 4]));
    assert_eq!(iter.next(), Some(vec![5, 6]));
    assert_eq!(iter.next(), Some(vec![7, 8]));
    assert_eq!(iter.next(), Some(vec![9, 10]));
    assert_eq!(iter.next(), None);
}
