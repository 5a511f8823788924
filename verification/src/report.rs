use vstd::prelude::*;
use crate::metrics::{
    TimingSample, bandwidth_centi_mib, latency_centi_us, elapsed_whole_us, spec_latency_centi_us,
    spec_bandwidth_centi_mib,
};
use crate::routine::Routine;
use crate::sweep::{seq_min, seq_max, sweep_min, sweep_max};
use crate::text::{dec_str, fixed2_str, fixed2_to_string, u64_to_string, u128_to_string,
    usize_to_string};

verus! {

/// The horizontal rule of every banner.
pub open spec fn rule_line() -> Seq<char> {
    "=============================================="@
}

/// The title line of the results banner.
pub open spec fn results_title_line() -> Seq<char> {
    "===          Benchmark Results             ==="@
}

/// The title line of the test-information banner.
pub open spec fn info_title_line() -> Seq<char> {
    "===          Test Information              ==="@
}

/// The column header of the sized-routine table.
pub open spec fn sized_columns_line() -> Seq<char> {
    "size (b)\r\t\tlatency (us)\r\t\t\t\tbandwidth (mb/s)"@
}

/// One data row of the sized-routine table: the size in bytes, the
/// per-operation latency in microseconds and the bandwidth in MiB/s,
/// both with two decimal places.
pub open spec fn sized_row_str(size: nat, latency_centi_us: nat, bandwidth_centi_mib: nat) -> Seq<
    char,
> {
    dec_str(size) + "\r\t\t"@ + fixed2_str(latency_centi_us) + "\r\t\t\t\t"@ + fixed2_str(
        bandwidth_centi_mib,
    )
}

/// The single line of a scalar-routine report: the average time of one
/// operation in microseconds, and the total elapsed microseconds.
pub open spec fn scalar_line_str(op_noun: Seq<char>, avg_centi_us: nat, total_us: nat) -> Seq<
    char,
> {
    "Avg Time per "@ + op_noun + " (us): "@ + fixed2_str(avg_centi_us) + " ("@ + dec_str(total_us)
        + " us total)"@
}

/// A labelled line of the test-information banner.
pub open spec fn info_field_str(label: Seq<char>, value: Seq<char>) -> Seq<char> {
    label + value
}

/// The three banner lines above the benchmark results.
fn results_banner() -> (lines: Vec<String>)
    ensures
        lines@.len() == 3,
        lines@[0]@ == rule_line(),
        lines@[1]@ == results_title_line(),
        lines@[2]@ == rule_line(),
{
    proof {
        reveal_strlit("==============================================");
        reveal_strlit("===          Benchmark Results             ===");
    }
    let mut lines: Vec<String> = Vec::new();
    lines.push(String::from_str("=============================================="));
    lines.push(String::from_str("===          Benchmark Results             ==="));
    lines.push(String::from_str("=============================================="));
    lines
}

/// One data row of the sized-routine table.
fn sized_row(sample: &TimingSample, ntimes: usize) -> (line: String)
    requires
        ntimes > 0,
        sample.elapsed_ns > 0,
        sample.size * ntimes * 100_000_000_000 <= u128::MAX,
    ensures
        line@ == sized_row_str(
            sample.size as nat,
            spec_latency_centi_us(sample.elapsed_ns as int, ntimes as int) as nat,
            spec_bandwidth_centi_mib(
                sample.size as int,
                ntimes as int,
                sample.elapsed_ns as int,
            ) as nat,
        ),
{
    let latency = latency_centi_us(sample.elapsed_ns, ntimes);
    let bandwidth = bandwidth_centi_mib(sample.size, ntimes, sample.elapsed_ns);
    let mut line = usize_to_string(sample.size);
    line.append("\r\t\t");
    let lat_s = fixed2_to_string(latency);
    line.append(lat_s.as_str());
    line.append("\r\t\t\t\t");
    let bw_s = fixed2_to_string(bandwidth);
    line.append(bw_s.as_str());
    proof {
        assert(line@ =~= sized_row_str(
            sample.size as nat,
            spec_latency_centi_us(sample.elapsed_ns as int, ntimes as int) as nat,
            spec_bandwidth_centi_mib(
                sample.size as int,
                ntimes as int,
                sample.elapsed_ns as int,
            ) as nat,
        ));
    }
    line
}

/// The report of a sized (bulk-transfer) run: three banner lines, the
/// column header, then one row per sample, in sample order. Every PE
/// other than PE 0 gets no output at all.
#[verifier::loop_isolation(false)]
pub fn render_sized_report(my_pe: usize, samples: &Vec<TimingSample>, ntimes: usize) -> (lines:
    Vec<String>)
    requires
        ntimes > 0,
        forall|i: int| 0 <= i < samples@.len() ==> samples@[i].elapsed_ns > 0,
        forall|i: int|
            0 <= i < samples@.len() ==> samples@[i].size * ntimes * 100_000_000_000 <= u128::MAX,
    ensures
        my_pe != 0 ==> lines@.len() == 0,
        my_pe == 0 ==> lines@.len() == 4 + samples@.len(),
        my_pe == 0 ==> lines@[0]@ == rule_line() && lines@[1]@ == results_title_line() && lines@[2]@
            == rule_line() && lines@[3]@ == sized_columns_line(),
        my_pe == 0 ==> forall|i: int|
            0 <= i < samples@.len() ==> lines@[4 + i]@ == sized_row_str(
                samples@[i].size as nat,
                spec_latency_centi_us(samples@[i].elapsed_ns as int, ntimes as int) as nat,
                spec_bandwidth_centi_mib(
                    samples@[i].size as int,
                    ntimes as int,
                    samples@[i].elapsed_ns as int,
                ) as nat,
            ),
{
    if my_pe != 0 {
        return Vec::new();
    }
    proof {
        reveal_strlit("size (b)\r\t\tlatency (us)\r\t\t\t\tbandwidth (mb/s)");
    }
    let mut lines = results_banner();
    lines.push(String::from_str("size (b)\r\t\tlatency (us)\r\t\t\t\tbandwidth (mb/s)"));
    let mut i: usize = 0;
    while i < samples.len()
        invariant
            i <= samples@.len(),
            lines@.len() == 4 + i,
            lines@[0]@ == rule_line(),
            lines@[1]@ == results_title_line(),
            lines@[2]@ == rule_line(),
            lines@[3]@ == sized_columns_line(),
            forall|j: int|
                0 <= j < i ==> lines@[4 + j]@ == sized_row_str(
                    samples@[j].size as nat,
                    spec_latency_centi_us(samples@[j].elapsed_ns as int, ntimes as int) as nat,
                    spec_bandwidth_centi_mib(
                        samples@[j].size as int,
                        ntimes as int,
                        samples@[j].elapsed_ns as int,
                    ) as nat,
                ),
        decreases samples@.len() - i,
    {
        let row = sized_row(&samples[i], ntimes);
        lines.push(row);
        i = i + 1;
    }
    lines
}

/// The report of a scalar (atomic or barrier) run: three banner lines
/// and the single average line. Every PE other than PE 0 gets no
/// output at all.
pub fn render_scalar_report(my_pe: usize, routine: &Routine, elapsed_ns: u64, ntimes: usize) -> (
    lines: Vec<String>)
    requires
        ntimes > 0,
    ensures
        my_pe != 0 ==> lines@.len() == 0,
        my_pe == 0 ==> lines@.len() == 4,
        my_pe == 0 ==> lines@[0]@ == rule_line() && lines@[1]@ == results_title_line() && lines@[2]@
            == rule_line(),
        my_pe == 0 ==> lines@[3]@ == scalar_line_str(
            routine.spec_op_noun(),
            spec_latency_centi_us(elapsed_ns as int, ntimes as int) as nat,
            (elapsed_ns as int / 1000) as nat,
        ),
{
    if my_pe != 0 {
        return Vec::new();
    }
    proof {
        reveal_strlit("Avg Time per ");
        reveal_strlit(" (us): ");
        reveal_strlit(" (");
        reveal_strlit(" us total)");
    }
    let mut lines = results_banner();
    let avg = latency_centi_us(elapsed_ns, ntimes);
    let total_us = elapsed_whole_us(elapsed_ns);
    let mut line = String::from_str("Avg Time per ");
    line.append(routine.op_noun());
    line.append(" (us): ");
    let avg_s = fixed2_to_string(avg);
    line.append(avg_s.as_str());
    line.append(" (");
    let total_s = u64_to_string(total_us);
    line.append(total_s.as_str());
    line.append(" us total)");
    proof {
        assert(line@ =~= scalar_line_str(
            routine.spec_op_noun(),
            spec_latency_centi_us(elapsed_ns as int, ntimes as int) as nat,
            (elapsed_ns as int / 1000) as nat,
        ));
    }
    lines.push(line);
    lines
}

/// One labelled field line of the test-information banner.
fn info_field(label: &'static str, value: String) -> (line: String)
    ensures
        line@ == info_field_str(label@, value@),
{
    let mut line = String::from_str(label);
    line.append(value.as_str());
    line
}

/// The test-information banner printed before a run: runtime name and
/// version, bindings version, PE count, routine, the sweep's smallest
/// and largest sizes for bulk routines, and the repetition count.
/// Every PE other than PE 0 gets no output at all.
pub fn render_test_info(
    my_pe: usize,
    shmem_name: &str,
    major: u32,
    minor: u32,
    bindings: &str,
    n_pes: usize,
    routine: &Routine,
    sweep: &Vec<usize>,
    ntimes: usize,
) -> (lines: Vec<String>)
    requires
        (routine is Get || routine is Put) ==> sweep@.len() > 0,
    ensures
        my_pe != 0 ==> lines@.len() == 0,
        my_pe == 0 ==> lines@.len() == (if routine is Get || routine is Put {
            11int
        } else {
            9int
        }),
        my_pe == 0 ==> lines@[0]@ == rule_line() && lines@[1]@ == info_title_line() && lines@[2]@
            == rule_line(),
        my_pe == 0 ==> lines@[3]@ == info_field_str("  OpenSHMEM Name:         "@, shmem_name@),
        my_pe == 0 ==> lines@[4]@ == info_field_str(
            "  OpenSHMEM Version:      "@,
            dec_str(major as nat) + "."@ + dec_str(minor as nat),
        ),
        my_pe == 0 ==> lines@[5]@ == info_field_str("  Bindings Version:       "@, bindings@),
        my_pe == 0 ==> lines@[6]@ == info_field_str(
            "  Number of PEs:          "@,
            dec_str(n_pes as nat),
        ),
        my_pe == 0 ==> lines@[7]@ == info_field_str(
            "  Benchmark:              "@,
            routine.spec_label(),
        ),
        my_pe == 0 && (routine is Get || routine is Put) ==> lines@[8]@ == info_field_str(
            "  Min Msg Size (bytes):   "@,
            dec_str(seq_min(sweep@) as nat),
        ) && lines@[9]@ == info_field_str(
            "  Max Msg Size (bytes):   "@,
            dec_str(seq_max(sweep@) as nat),
        ),
        my_pe == 0 ==> lines@[lines@.len() - 1]@ == info_field_str(
            "  Ntimes:                 "@,
            dec_str(ntimes as nat),
        ),
{
    if my_pe != 0 {
        return Vec::new();
    }
    proof {
        reveal_strlit("==============================================");
        reveal_strlit("===          Test Information              ===");
        reveal_strlit(".");
    }
    let mut lines: Vec<String> = Vec::new();
    lines.push(String::from_str("=============================================="));
    lines.push(String::from_str("===          Test Information              ==="));
    lines.push(String::from_str("=============================================="));
    lines.push(info_field("  OpenSHMEM Name:         ", String::from_str(shmem_name)));
    let mut version = u128_to_string(major as u128);
    version.append(".");
    let minor_s = u128_to_string(minor as u128);
    version.append(minor_s.as_str());
    lines.push(info_field("  OpenSHMEM Version:      ", version));
    lines.push(info_field("  Bindings Version:       ", String::from_str(bindings)));
    lines.push(info_field("  Number of PEs:          ", usize_to_string(n_pes)));
    lines.push(info_field("  Benchmark:              ", String::from_str(routine.label())));
    if routine.uses_msg_size() {
        let lo = sweep_min(sweep);
        let hi = sweep_max(sweep);
        lines.push(info_field("  Min Msg Size (bytes):   ", usize_to_string(lo)));
        lines.push(info_field("  Max Msg Size (bytes):   ", usize_to_string(hi)));
    }
    lines.push(info_field("  Ntimes:                 ", usize_to_string(ntimes)));
    lines
}

} // verus!
