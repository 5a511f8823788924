use shmem_bench::driver::{num_samples, SampleLog};
use shmem_bench::report::{render_scalar_report, render_sized_report, render_test_info};
use shmem_bench::routine::Routine;
use shmem_bench::sweep::resolve_msg_sizes;

#[test]
fn non_root_pes_emit_nothing() {
    let samples = vec![shmem_bench::metrics::TimingSample { size: 1, elapsed_ns: 1000 }];
    assert!(render_sized_report(1, &samples, 1000).is_empty());
    assert!(render_scalar_report(2, &Routine::Barrier, 1000, 1000).is_empty());
    assert!(render_test_info(3, "x", 1, 5, "y", 4, &Routine::Get, &vec![1], 10).is_empty());
}

#[test]
fn get_sweep_scenario_three_rows_in_order() {
    // A bulk-read run over --msg-sizes 1,4,16 on 2 PEs: three timing
    // samples, three data rows, in that size order.
    let sweep = resolve_msg_sizes(Some(vec![1, 4, 16]), None).unwrap();
    assert_eq!(sweep, vec![1, 4, 16]);
    assert_eq!(num_samples(&Routine::Get, sweep.len()), 3);

    let mut log = SampleLog::new(sweep);
    log.record(1_000_000);
    log.record(1_000_000);
    log.record(1_000_000);
    assert!(log.is_complete());

    let lines = render_sized_report(0, log.samples(), 1000);
    assert_eq!(lines.len(), 7);
    assert_eq!(lines[0], "==============================================");
    assert_eq!(lines[1], "===          Benchmark Results             ===");
    assert_eq!(lines[2], "==============================================");
    assert_eq!(lines[3], "size (b)\r\t\tlatency (us)\r\t\t\t\tbandwidth (mb/s)");
    assert_eq!(lines[4], "1\r\t\t1.00\r\t\t\t\t0.95");
    assert_eq!(lines[5], "4\r\t\t1.00\r\t\t\t\t3.81");
    assert_eq!(lines[6], "16\r\t\t1.00\r\t\t\t\t15.25");
}

#[test]
fn barrier_scenario_single_average_line() {
    // A barrier run with --ntimes 100: one scalar measurement, one
    // average line, printed by PE 0 alone.
    assert_eq!(num_samples(&Routine::Barrier, 0), 1);
    let lines = render_scalar_report(0, &Routine::Barrier, 5_000_000, 100);
    assert_eq!(lines.len(), 4);
    assert_eq!(lines[3], "Avg Time per Barrier (us): 50.00 (5000 us total)");
    for pe in 1..4 {
        assert!(render_scalar_report(pe, &Routine::Barrier, 5_000_000, 100).is_empty());
    }
}

#[test]
fn atomic_increment_line_names_the_op() {
    let lines = render_scalar_report(0, &Routine::AtomicInc, 123_456, 1000);
    assert_eq!(lines.len(), 4);
    // 123456 ns over 1000 ops: 0.123456 us per op; 123 us in total.
    assert_eq!(lines[3], "Avg Time per Increment (us): 0.12 (123 us total)");
}

#[test]
fn test_info_for_sized_routine() {
    let lines = render_test_info(0, "TestSHMEM", 1, 5, "1.5.1", 4, &Routine::Get, &vec![16, 1, 4], 10);
    assert_eq!(lines.len(), 11);
    assert_eq!(lines[0], "==============================================");
    assert_eq!(lines[1], "===          Test Information              ===");
    assert_eq!(lines[2], "==============================================");
    assert_eq!(lines[3], "  OpenSHMEM Name:         TestSHMEM");
    assert_eq!(lines[4], "  OpenSHMEM Version:      1.5");
    assert_eq!(lines[5], "  Bindings Version:       1.5.1");
    assert_eq!(lines[6], "  Number of PEs:          4");
    assert_eq!(lines[7], "  Benchmark:              Get");
    assert_eq!(lines[8], "  Min Msg Size (bytes):   1");
    assert_eq!(lines[9], "  Max Msg Size (bytes):   16");
    assert_eq!(lines[10], "  Ntimes:                 10");
}

#[test]
fn test_info_for_scalar_routine_has_no_size_lines() {
    let lines = render_test_info(0, "TestSHMEM", 1, 5, "1.5.1", 2, &Routine::Barrier, &vec![], 100);
    assert_eq!(lines.len(), 9);
    assert_eq!(lines[7], "  Benchmark:              Barrier");
    assert_eq!(lines[8], "  Ntimes:                 100");
}
