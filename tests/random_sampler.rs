use dataloader::{IndexIterator, RandomSampler, Sampler};

#[test]
fn random_sampler() {
    let random_sampler = RandomSampler::new(10);
    let mut iter = random_sampler.into_iter();
    while let Some(idx) = iter.next() {
        println!("{idx}");
    }
}

#[test]
fn random_sampler_len() {
    let random_sampler = RandomSampler::new(10);

    assert_eq!(random_sampler.len(), 10);
    let mut iter = random_sampler.into_iter();
    assert_eq!(iter.len(), 10);
    let _ = iter.next();
    assert_eq!(iter.len(), 9);
    let _ = iter.next();
    let _ = iter.next();
    assert_eq!(iter.len(), 7);
}
