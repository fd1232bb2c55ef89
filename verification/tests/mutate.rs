use std::sync::atomic::AtomicUsize;
use std::sync::atomic::Ordering;
use vemcap::mutate_with;
use vemcap::threaded_mutate;
use vemcap::Strategy;
use vemcap::THRESHOLD;

#[test]
fn increment() {
    let mut data: Vec<_> = (0..1024u32).collect();
    let expected: Vec<_> = (1..=1024).collect();
    threaded_mutate(&mut data, |x| *x += 1);

    assert_eq!(data, expected);
}

#[test]
fn squares_four_elements_in_place() {
    let mut data = vec![1, 2, 3, 4];
    threaded_mutate(&mut data, |x| *x *= *x);
    assert_eq!(data, vec![1, 4, 9, 16]);
}

#[test]
fn every_element_becomes_its_image() {
    for len in [0usize, 1, 62, 63, 64, 65, 513] {
        let original: Vec<i64> = (0..len as i64).map(|k| 5 * k - 100).collect();
        let mut data: Vec<i64> = original.clone();
        threaded_mutate(&mut data, |x| *x = 2 * *x - 3);
        assert_eq!(data.len(), original.len());
        for i in 0..len {
            assert_eq!(data[i], 2 * original[i] - 3);
        }
    }
}

#[test]
fn mutation_around_the_threshold_agrees() {
    let mut below: Vec<u32> = (0..THRESHOLD as u32 - 1).collect();
    let mut at: Vec<u32> = (0..THRESHOLD as u32).collect();
    threaded_mutate(&mut below, |x| *x = *x * *x);
    threaded_mutate(&mut at, |x| *x = *x * *x);
    assert_eq!(below.len(), 63);
    assert_eq!(at.len(), 64);
    assert_eq!(below[..], at[..63]);
    assert_eq!(below[62], 3844);
    assert_eq!(at[63], 3969);
}

#[test]
fn both_strategies_leave_the_same_slice() {
    for len in [0usize, 1, 4, 63, 64, 900] {
        let original: Vec<u32> = (0..len as u32).collect();
        let mut sequential: Vec<u32> = original.clone();
        let mut parallel: Vec<u32> = original.clone();
        mutate_with(Strategy::Sequential, &mut sequential, |x| *x = *x * 3 + 2);
        mutate_with(Strategy::Parallel, &mut parallel, |x| *x = *x * 3 + 2);
        let expected: Vec<u32> = original.iter().map(|&x| x * 3 + 2).collect();
        assert_eq!(sequential, expected);
        assert_eq!(parallel, expected);
    }
}

#[test]
fn parallel_mutation_changes_the_slice() {
    let original: Vec<u32> = (0..256u32).collect();
    let mut data: Vec<u32> = original.clone();
    threaded_mutate(&mut data, |x| *x += 10);
    assert_ne!(data, original);
    assert_eq!(data[0], 10);
    assert_eq!(data[255], 265);
}

#[test]
fn empty_slice_stays_empty() {
    let mut data: Vec<u8> = Vec::new();
    threaded_mutate(&mut data, |x| *x += 1);
    assert!(data.is_empty());
    mutate_with(Strategy::Parallel, &mut data, |x| *x += 1);
    assert!(data.is_empty());
}

#[test]
fn mutates_any_contiguous_view() {
    let mut array: [u16; 5] = [1, 2, 3, 4, 5];
    threaded_mutate(&mut array, |x| *x *= 10);
    assert_eq!(array, [10, 20, 30, 40, 50]);

    let mut boxed: Box<[u16]> = vec![7u16; 100].into_boxed_slice();
    threaded_mutate(&mut boxed, |x| *x -= 7);
    assert!(boxed.iter().all(|&x| x == 0));

    let mut data: Vec<u16> = (0..10u16).collect();
    threaded_mutate(&mut data[2..5], |x| *x = 0);
    assert_eq!(data, vec![0, 1, 0, 0, 0, 5, 6, 7, 8, 9]);
}

#[test]
fn mutates_owned_elements() {
    let mut words: Vec<String> = (0..150usize).map(|k| format!("w{}", k)).collect();
    threaded_mutate(&mut words, |w| w.push('!'));
    assert_eq!(words.len(), 150);
    assert_eq!(words[0], "w0!");
    assert_eq!(words[149], "w149!");
}

#[test]
fn mutation_runs_once_per_element() {
    for len in [0usize, 5, 63, 64, 3000] {
        let calls = AtomicUsize::new(0);
        let mut data: Vec<u32> = vec![0u32; len];
        threaded_mutate(&mut data, |x| {
            calls.fetch_add(1, Ordering::SeqCst);
            *x += 1;
        });
        assert_eq!(calls.load(Ordering::SeqCst), len);
        assert!(data.iter().all(|&x| x == 1));
    }
}
