use raytracer::coordinator::{split_samples, DEFAULT_WORKERS};

#[test]
fn default_budget_splits_with_remainder_first() {
    let shares = split_samples(512, DEFAULT_WORKERS);
    assert_eq!(shares.len(), 12);
    for (i, s) in shares.iter().enumerate() {
        if i < 8 {
            assert_eq!(*s, 43);
        } else {
            assert_eq!(*s, 42);
        }
    }
    assert_eq!(shares.iter().map(|s| *s as u32).sum::<u32>(), 512);
}

#[test]
fn even_budget_gives_equal_shares() {
    assert_eq!(split_samples(24, 12), vec![2u16; 12]);
}

#[test]
fn budget_below_worker_count_uses_fewer_workers() {
    assert_eq!(split_samples(5, 12), vec![1u16; 5]);
}

#[test]
fn zero_budget_uses_no_worker() {
    assert!(split_samples(0, 12).is_empty());
}

#[test]
fn single_worker_takes_everything() {
    assert_eq!(split_samples(u16::MAX, 1), vec![u16::MAX]);
}

#[test]
fn shares_stay_within_one_sample() {
    for total in 0u16..200 {
        for workers in 1u16..20 {
            let shares = split_samples(total, workers);
            assert_eq!(shares.iter().map(|s| *s as u32).sum::<u32>(), total as u32);
            assert_eq!(shares.len(), total.min(workers) as usize);
            let lo = shares.iter().min().copied().unwrap_or(0);
            let hi = shares.iter().max().copied().unwrap_or(0);
            assert!(hi <= lo + 1);
            assert!(shares.iter().all(|s| *s > 0));
        }
    }
}
