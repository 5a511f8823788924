use shmem_bench::metrics::{bandwidth_centi_mib, elapsed_whole_us, latency_centi_us};

#[test]
fn latency_two_microseconds_per_op() {
    // 2 ms over 1000 ops: 2 us per op.
    assert_eq!(latency_centi_us(2_000_000, 1000), 200);
}

#[test]
fn latency_rounds_down() {
    // 1500 ns over 1000 ops: 0.0015 us per op, below one hundredth.
    assert_eq!(latency_centi_us(1500, 1000), 0);
}

#[test]
fn latency_fractional_digits() {
    // 12_345_678 ns over 1000 ops: 12.345678 us per op.
    assert_eq!(latency_centi_us(12_345_678, 1000), 1234);
}

#[test]
fn bandwidth_one_mib_per_second() {
    // One mebibyte moved in exactly one second.
    assert_eq!(bandwidth_centi_mib(1_048_576, 1, 1_000_000_000), 100);
}

#[test]
fn bandwidth_rounds_down() {
    // 1024 bytes * 1000 ops in one second: 0.9765625 MiB/s.
    assert_eq!(bandwidth_centi_mib(1024, 1000, 1_000_000_000), 97);
}

#[test]
fn bandwidth_matches_size_over_latency() {
    // 1000-byte messages, 1000 ops, one second: latency is 1000 us per
    // op, bandwidth is 1_000_000 B/s = 0.95367... MiB/s. The two
    // figures describe the same rate: size / latency = 1000 B / 1 ms.
    assert_eq!(latency_centi_us(1_000_000_000, 1000), 100_000);
    assert_eq!(bandwidth_centi_mib(1000, 1000, 1_000_000_000), 95);
}

#[test]
fn elapsed_microseconds_rounds_down() {
    assert_eq!(elapsed_whole_us(2500), 2);
    assert_eq!(elapsed_whole_us(999), 0);
    assert_eq!(elapsed_whole_us(1_000_000), 1000);
}
