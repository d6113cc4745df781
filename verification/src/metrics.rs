//! Benchmark settings and the whole-number statistics of benchmark runs.

use vstd::prelude::*;

verus! {

/// Settings of a benchmark.
#[derive(Debug, Clone, PartialEq, Eq)]
pub struct BenchmarkConfig {
    /// Iterations that are measured.
    pub iterations: u32,
    /// Iterations that run first and are not measured.
    pub warmup_iterations: u32,
    /// Time after which an iteration is given up, in milliseconds.
    pub iteration_timeout_ms: u64,
    pub collect_memory_stats: bool,
    pub collect_system_stats: bool,
    /// Time between two samples, in milliseconds.
    pub sample_interval_ms: u64,
}

impl Default for BenchmarkConfig {
    fn default() -> (config: Self)
        ensures
            config.iterations == 10,
            config.warmup_iterations == 3,
            config.iteration_timeout_ms == 30_000,
            config.collect_memory_stats,
            config.collect_system_stats,
            config.sample_interval_ms == 100,
    {
        BenchmarkConfig {
            iterations: 10,
            warmup_iterations: 3,
            iteration_timeout_ms: 30_000,
            collect_memory_stats: true,
            collect_system_stats: true,
            sample_interval_ms: 100,
        }
    }
}

/// What one iteration of a benchmark gave.
#[derive(Debug, Clone, PartialEq, Eq)]
pub struct IterationResult {
    pub iteration: u32,
    pub success: bool,
    pub duration_ms: u64,
    pub memory_usage_bytes: u64,
    pub error_message: Option<String>,
    pub timestamp: u64,
}

/// Memory use over the iterations of a benchmark.
#[derive(Debug, Clone, PartialEq, Eq)]
pub struct MemoryStats {
    pub peak_memory_bytes: u64,
    pub average_memory_bytes: u64,
    pub min_memory_bytes: u64,
    pub max_memory_bytes: u64,
    pub memory_samples: Vec<u64>,
}

impl Default for MemoryStats {
    fn default() -> (stats: Self)
        ensures
            stats.peak_memory_bytes == 0,
            stats.average_memory_bytes == 0,
            stats.min_memory_bytes == 0,
            stats.max_memory_bytes == 0,
            stats.memory_samples@.len() == 0,
    {
        MemoryStats {
            peak_memory_bytes: 0,
            average_memory_bytes: 0,
            min_memory_bytes: 0,
            max_memory_bytes: 0,
            memory_samples: Vec::new(),
        }
    }
}

/// The sum of some numbers.
pub open spec fn total(values: Seq<u64>) -> nat
    decreases values.len(),
{
    if values.len() == 0 {
        0
    } else {
        total(values.drop_last()) + values.last() as nat
    }
}

/// Whether `bound` is the smallest of `values`.
pub open spec fn is_least_of(bound: u64, values: Seq<u64>) -> bool {
    values.contains(bound) && forall|i: int| 0 <= i < values.len() ==> bound <= #[trigger] values[i]
}

/// Whether `bound` is the largest of `values`.
pub open spec fn is_greatest_of(bound: u64, values: Seq<u64>) -> bool {
    values.contains(bound) && forall|i: int| 0 <= i < values.len() ==> #[trigger] values[i] <= bound
}

/// The memory use of each iteration, in order.
pub open spec fn memory_samples(results: Seq<IterationResult>) -> Seq<u64> {
    Seq::new(results.len(), |i: int| results[i].memory_usage_bytes)
}

/// The memory statistics of some iterations: the samples in order, their
/// smallest and largest, and their average rounded down. The peak is the
/// largest sample. Without iterations every figure is 0.
pub fn collect_memory_stats(results: &Vec<IterationResult>) -> (stats: MemoryStats)
    ensures
        stats.memory_samples@ == memory_samples(results@),
        stats.peak_memory_bytes == stats.max_memory_bytes,
        results@.len() == 0 ==> stats.min_memory_bytes == 0 && stats.max_memory_bytes == 0
            && stats.average_memory_bytes == 0,
        results@.len() > 0 ==> {
            &&& is_least_of(stats.min_memory_bytes, memory_samples(results@))
            &&& is_greatest_of(stats.max_memory_bytes, memory_samples(results@))
            &&& stats.average_memory_bytes == total(memory_samples(results@)) / results@.len()
        },
{
    if results.len() == 0 {
        let stats = MemoryStats::default();
        assert(stats.memory_samples@ =~= memory_samples(results@));
        return stats;
    }
    let ghost all = memory_samples(results@);
    let mut samples: Vec<u64> = Vec::new();
    let mut least: u64 = results[0].memory_usage_bytes;
    let mut greatest: u64 = results[0].memory_usage_bytes;
    let mut sum: u128 = 0;
    let mut i: usize = 0;
    proof {
        assert(all.take(0) =~= Seq::empty());
    }
    while i < results.len()
        invariant
            i <= results.len(),
            results@.len() > 0,
            all == memory_samples(results@),
            samples@ == all.take(i as int),
            sum == total(all.take(i as int)),
            sum <= i * u64::MAX,
            i == 0 ==> least == all[0] && greatest == all[0],
            i > 0 ==> is_least_of(least, all.take(i as int)) && is_greatest_of(
                greatest,
                all.take(i as int),
            ),
        decreases results.len() - i,
    {
        let sample: u64 = results[i].memory_usage_bytes;
        proof {
            assert(all.take(i + 1).drop_last() =~= all.take(i as int));
            assert(all.take(i + 1).last() == sample);
            assert(all.take(i + 1) =~= all.take(i as int).push(sample));
            assert((i + 1) * u64::MAX == i * u64::MAX + u64::MAX) by (nonlinear_arith);
            assert(i * u64::MAX <= usize::MAX * u64::MAX) by (nonlinear_arith)
                requires
                    i <= usize::MAX,
            ;
            assert(usize::MAX * u64::MAX + u64::MAX <= u128::MAX) by (nonlinear_arith)
                requires
                    usize::MAX <= u64::MAX,
            ;
        }
        let ghost before = all.take(i as int);
        let ghost old_least = least;
        let ghost old_greatest = greatest;
        if sample < least {
            least = sample;
        }
        if sample > greatest {
            greatest = sample;
        }
        samples.push(sample);
        sum = sum + sample as u128;
        proof {
            let now = all.take(i + 1);
            assert(now[i as int] == sample);
            if i > 0 {
                let at_least = choose|k: int| 0 <= k < before.len() && before[k] == old_least;
                assert(now[at_least] == old_least);
                let at_greatest = choose|k: int| 0 <= k < before.len() && before[k] == old_greatest;
                assert(now[at_greatest] == old_greatest);
                assert forall|k: int| 0 <= k < now.len() implies least <= #[trigger] now[k] by {
                    if k < i {
                        assert(before[k] == now[k]);
                    }
                }
                assert forall|k: int| 0 <= k < now.len() implies #[trigger] now[k] <= greatest by {
                    if k < i {
                        assert(before[k] == now[k]);
                    }
                }
            }
        }
        i = i + 1;
    }
    proof {
        assert(all.take(i as int) =~= all);
    }
    let average: u128 = sum / (results.len() as u128);
    proof {
        assert(average <= u64::MAX) by (nonlinear_arith)
            requires
                average == sum / (i as u128),
                sum <= i * u64::MAX,
                i > 0,
        ;
    }
    MemoryStats {
        peak_memory_bytes: greatest,
        average_memory_bytes: average as u64,
        min_memory_bytes: least,
        max_memory_bytes: greatest,
        memory_samples: samples,
    }
}

/// Whether some numbers stand in ascending order.
pub open spec fn is_ascending(values: Seq<u64>) -> bool {
    forall|i: int, j: int| 0 <= i <= j < values.len() ==> values[i] <= values[j]
}

/// Calls `slice::sort`, which puts the elements in ascending order and
/// neither drops nor adds one.
#[verifier::external_body]
fn sort_ascending(values: &mut Vec<u64>)
    ensures
        is_ascending(final(values)@),
        final(values)@.to_multiset() == old(values)@.to_multiset(),
{
    values.sort();
}

/// The durations of the iterations that succeeded, in order.
pub open spec fn successful_durations(results: Seq<IterationResult>) -> Seq<u64>
    decreases results.len(),
{
    if results.len() == 0 {
        Seq::empty()
    } else if results.last().success {
        successful_durations(results.drop_last()).push(results.last().duration_ms)
    } else {
        successful_durations(results.drop_last())
    }
}

/// The whole-number statistics of the durations of a benchmark, in
/// milliseconds.
#[derive(Debug, Clone, Copy, PartialEq, Eq, Structural)]
pub struct DurationStatistics {
    pub min_duration_ms: u64,
    pub max_duration_ms: u64,
    pub mean_duration_ms: u64,
    pub median_duration_ms: u64,
}

/// The statistics of durations that stand in ascending order: the first,
/// the last, the sum over the number rounded down, and the middle one or, for
/// an even number, the mean of the two in the middle rounded down.
pub open spec fn statistics_of(ascending: Seq<u64>) -> DurationStatistics
    recommends
        ascending.len() > 0,
{
    let middle = ascending.len() as int / 2;
    DurationStatistics {
        min_duration_ms: ascending[0],
        max_duration_ms: ascending.last(),
        mean_duration_ms: (total(ascending) / ascending.len()) as u64,
        median_duration_ms: if ascending.len() % 2 == 0 {
            ((ascending[middle - 1] + ascending[middle]) / 2) as u64
        } else {
            ascending[middle]
        },
    }
}

/// The statistics of the iterations that succeeded, or nothing if none did.
/// They are those of the successful durations put in ascending order.
pub fn calculate_statistics(results: &Vec<IterationResult>) -> (statistics: Option<DurationStatistics>)
    ensures
        statistics is None <==> successful_durations(results@).len() == 0,
        statistics matches Some(found) ==> exists|ascending: Seq<u64>|
            {
                &&& is_ascending(ascending)
                &&& #[trigger] ascending.to_multiset() == successful_durations(
                    results@,
                ).to_multiset()
                &&& ascending.len() == successful_durations(results@).len()
                &&& found == statistics_of(ascending)
            },
{
    let mut durations: Vec<u64> = Vec::new();
    let mut i: usize = 0;
    proof {
        assert(results@.take(0) =~= Seq::empty());
    }
    while i < results.len()
        invariant
            i <= results.len(),
            durations@ == successful_durations(results@.take(i as int)),
        decreases results.len() - i,
    {
        proof {
            assert(results@.take(i + 1).drop_last() =~= results@.take(i as int));
            assert(results@.take(i + 1).last() == results@[i as int]);
        }
        if results[i].success {
            durations.push(results[i].duration_ms);
        }
        i = i + 1;
    }
    proof {
        assert(results@.take(i as int) =~= results@);
    }
    if durations.len() == 0 {
        return None;
    }
    let ghost unsorted = durations@;
    sort_ascending(&mut durations);
    proof {
        unsorted.to_multiset_ensures();
        durations@.to_multiset_ensures();
    }
    let count: usize = durations.len();
    let mut sum: u128 = 0;
    let mut k: usize = 0;
    proof {
        assert(durations@.take(0) =~= Seq::empty());
    }
    while k < count
        invariant
            k <= count,
            count == durations@.len(),
            sum == total(durations@.take(k as int)),
            sum <= k * u64::MAX,
        decreases count - k,
    {
        proof {
            assert(durations@.take(k + 1).drop_last() =~= durations@.take(k as int));
            assert(durations@.take(k + 1).last() == durations@[k as int]);
            assert((k + 1) * u64::MAX == k * u64::MAX + u64::MAX) by (nonlinear_arith);
            assert(k * u64::MAX <= usize::MAX * u64::MAX) by (nonlinear_arith)
                requires
                    k <= usize::MAX,
            ;
            assert(usize::MAX * u64::MAX + u64::MAX <= u128::MAX) by (nonlinear_arith)
                requires
                    usize::MAX <= u64::MAX,
            ;
        }
        sum = sum + durations[k] as u128;
        k = k + 1;
    }
    proof {
        assert(durations@.take(k as int) =~= durations@);
    }
    let mean: u128 = sum / (count as u128);
    proof {
        assert(mean <= u64::MAX) by (nonlinear_arith)
            requires
                mean == sum / (count as u128),
                sum <= count * u64::MAX,
                count > 0,
        ;
    }
    let middle: usize = count / 2;
    let median: u64 = if count % 2 == 0 {
        ((durations[middle - 1] as u128 + durations[middle] as u128) / 2) as u64
    } else {
        durations[middle]
    };
    let found = DurationStatistics {
        min_duration_ms: durations[0],
        max_duration_ms: durations[count - 1],
        mean_duration_ms: mean as u64,
        median_duration_ms: median,
    };
    proof {
        assert(found == statistics_of(durations@));
        assert(durations@.to_multiset() == successful_durations(results@).to_multiset());
    }
    Some(found)
}

/// The whole-number figures of one measurement of an operation.
#[derive(Debug, Clone, Copy, PartialEq, Eq, Structural)]
pub struct OperationCounts {
    pub duration_ms: u64,
    pub memory_usage_bytes: u64,
    pub operations_count: u64,
    pub error_count: u64,
}

/// The figures of some measurements taken together: durations, operations
/// and errors add up, of the memory the largest figure counts.
pub open spec fn combined(samples: Seq<OperationCounts>) -> (nat, nat, nat, nat)
    decreases samples.len(),
{
    if samples.len() == 0 {
        (0, 0, 0, 0)
    } else {
        let earlier = combined(samples.drop_last());
        let last = samples.last();
        (
            earlier.0 + last.duration_ms as nat,
            if earlier.1 >= last.memory_usage_bytes {
                earlier.1
            } else {
                last.memory_usage_bytes as nat
            },
            earlier.2 + last.operations_count as nat,
            earlier.3 + last.error_count as nat,
        )
    }
}

/// A number, or the largest 64-bit number if that is smaller.
pub open spec fn capped(n: nat) -> u64 {
    if n <= u64::MAX {
        n as u64
    } else {
        u64::MAX
    }
}

/// Takes the measurements of an operation together: durations, operations
/// and errors add up (and stop at the largest 64-bit number), of the memory
/// the largest figure counts. Without measurements there is nothing to give.
pub fn aggregate_counts(samples: &Vec<OperationCounts>) -> (totals: Option<OperationCounts>)
    ensures
        totals is None <==> samples@.len() == 0,
        totals matches Some(sum) ==> {
            &&& sum.duration_ms == capped(combined(samples@).0)
            &&& sum.memory_usage_bytes == combined(samples@).1
            &&& sum.operations_count == capped(combined(samples@).2)
            &&& sum.error_count == capped(combined(samples@).3)
        },
{
    if samples.len() == 0 {
        return None;
    }
    let mut duration: u128 = 0;
    let mut memory: u64 = 0;
    let mut operations: u128 = 0;
    let mut errors: u128 = 0;
    let mut i: usize = 0;
    proof {
        assert(samples@.take(0) =~= Seq::empty());
    }
    while i < samples.len()
        invariant
            i <= samples.len(),
            duration == combined(samples@.take(i as int)).0,
            memory == combined(samples@.take(i as int)).1,
            operations == combined(samples@.take(i as int)).2,
            errors == combined(samples@.take(i as int)).3,
            duration <= i * u64::MAX,
            operations <= i * u64::MAX,
            errors <= i * u64::MAX,
        decreases samples.len() - i,
    {
        proof {
            assert(samples@.take(i + 1).drop_last() =~= samples@.take(i as int));
            assert(samples@.take(i + 1).last() == samples@[i as int]);
            assert((i + 1) * u64::MAX == i * u64::MAX + u64::MAX) by (nonlinear_arith);
            assert(i * u64::MAX <= usize::MAX * u64::MAX) by (nonlinear_arith)
                requires
                    i <= usize::MAX,
            ;
            assert(usize::MAX * u64::MAX + u64::MAX <= u128::MAX) by (nonlinear_arith)
                requires
                    usize::MAX <= u64::MAX,
            ;
        }
        let sample = samples[i];
        duration = duration + sample.duration_ms as u128;
        if sample.memory_usage_bytes > memory {
            memory = sample.memory_usage_bytes;
        }
        operations = operations + sample.operations_count as u128;
        errors = errors + sample.error_count as u128;
        i = i + 1;
    }
    proof {
        assert(samples@.take(i as int) =~= samples@);
    }
    Some(
        OperationCounts {
            duration_ms: cap(duration),
            memory_usage_bytes: memory,
            operations_count: cap(operations),
            error_count: cap(errors),
        },
    )
}

fn cap(n: u128) -> (capped_at: u64)
    ensures
        capped_at == capped(n as nat),
{
    if n > u64::MAX as u128 {
        u64::MAX
    } else {
        n as u64
    }
}

} // verus!
