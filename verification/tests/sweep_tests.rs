use shmem_bench::sweep::{resolve_msg_sizes, sweep_max, sweep_min, SweepError, DEFAULT_MAX_MSG_SIZE};

#[test]
fn default_sweep_is_21_powers_of_two() {
    let sweep = resolve_msg_sizes(None, None).unwrap();
    assert_eq!(sweep.len(), 21);
    let mut expected: usize = 1;
    for (k, size) in sweep.iter().enumerate() {
        assert_eq!(*size, expected, "element {k}");
        expected *= 2;
    }
    assert_eq!(sweep[0], 1);
    assert_eq!(sweep[20], DEFAULT_MAX_MSG_SIZE);
    assert_eq!(DEFAULT_MAX_MSG_SIZE, 1 << 20);
}

#[test]
fn max_one_gives_single_size() {
    assert_eq!(resolve_msg_sizes(None, Some(1)).unwrap(), vec![1]);
}

#[test]
fn max_two_gives_two_sizes() {
    assert_eq!(resolve_msg_sizes(None, Some(2)).unwrap(), vec![1, 2]);
}

#[test]
fn max_three_stops_below_max() {
    assert_eq!(resolve_msg_sizes(None, Some(3)).unwrap(), vec![1, 2]);
}

#[test]
fn max_thousand_stops_at_512() {
    let sweep = resolve_msg_sizes(None, Some(1000)).unwrap();
    assert_eq!(sweep, vec![1, 2, 4, 8, 16, 32, 64, 128, 256, 512]);
}

#[test]
fn max_power_of_two_is_included() {
    let sweep = resolve_msg_sizes(None, Some(1024)).unwrap();
    assert_eq!(sweep.last(), Some(&1024));
    assert_eq!(sweep.len(), 11);
}

#[test]
fn power_sweeps_are_strictly_increasing() {
    let sweep = resolve_msg_sizes(None, Some(123_456)).unwrap();
    assert!(!sweep.is_empty());
    for pair in sweep.windows(2) {
        assert!(pair[0] < pair[1]);
    }
}

#[test]
fn explicit_list_is_kept_verbatim() {
    let sweep = resolve_msg_sizes(Some(vec![1, 4, 16]), None).unwrap();
    assert_eq!(sweep, vec![1, 4, 16]);
}

#[test]
fn explicit_list_order_and_duplicates_survive() {
    let sweep = resolve_msg_sizes(Some(vec![16, 1, 4, 4]), None).unwrap();
    assert_eq!(sweep, vec![16, 1, 4, 4]);
}

#[test]
fn explicit_list_wins_over_max() {
    let sweep = resolve_msg_sizes(Some(vec![7]), Some(1024)).unwrap();
    assert_eq!(sweep, vec![7]);
}

#[test]
fn max_zero_is_rejected() {
    assert_eq!(resolve_msg_sizes(None, Some(0)), Err(SweepError::ZeroMaxSize));
}

#[test]
fn empty_explicit_list_is_rejected() {
    assert_eq!(resolve_msg_sizes(Some(vec![]), None), Err(SweepError::EmptyExplicitList));
}

#[test]
fn zero_explicit_size_is_rejected() {
    assert_eq!(resolve_msg_sizes(Some(vec![1, 0, 4]), None), Err(SweepError::ZeroExplicitSize));
}

#[test]
fn sweep_min_and_max_of_unsorted_sweep() {
    let sweep = vec![16usize, 1, 4];
    assert_eq!(sweep_min(&sweep), 1);
    assert_eq!(sweep_max(&sweep), 16);
}

#[test]
fn sweep_min_and_max_of_single_size() {
    let sweep = vec![8usize];
    assert_eq!(sweep_min(&sweep), 8);
    assert_eq!(sweep_max(&sweep), 8);
}
