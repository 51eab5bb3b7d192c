//! Repeated execution: per-run records, their aggregate statistics and the
//! check that every run produced the same result.

use crate::error::DebuggerError;
use crate::inspector::budget::BudgetInfo;
use vstd::prelude::*;
use vstd::string::*;

verus! {

/// The mark that ends a result cut down to its display width.
pub const ELLIPSIS: char = '\u{2026}';

/// How many characters of a divergent result the summary shows.
pub const RESULT_DISPLAY_WIDTH: usize = 28;

/// What one iteration of a repeated call measured.
#[derive(Debug, Clone)]
pub struct RunStats {
    /// Position in the batch, counted from 1.
    pub iteration: u32,
    /// Wall-clock time around the single call, in nanoseconds.
    pub duration: u128,
    /// The meters as read immediately after the call.
    pub budget: BudgetInfo,
    /// The call's outcome as display text.
    pub result: String,
}

/// Minimum, maximum and average of every metric over a batch of runs, and
/// whether the runs disagree on their result.
#[derive(Debug)]
pub struct AggregateStats {
    pub runs: Vec<RunStats>,
    pub min_duration: u128,
    pub max_duration: u128,
    pub avg_duration: u128,
    pub min_cpu: u64,
    pub max_cpu: u64,
    pub avg_cpu: u64,
    pub min_memory: u64,
    pub max_memory: u64,
    pub avg_memory: u64,
    pub inconsistent_results: bool,
}

/// The durations of `runs`, in order.
pub open spec fn durations(runs: Seq<RunStats>) -> Seq<int> {
    runs.map_values(|r: RunStats| r.duration as int)
}

/// The instruction counts of `runs`, in order.
pub open spec fn cpu_readings(runs: Seq<RunStats>) -> Seq<int> {
    runs.map_values(|r: RunStats| r.budget.cpu_instructions as int)
}

/// The memory readings of `runs`, in order.
pub open spec fn memory_readings(runs: Seq<RunStats>) -> Seq<int> {
    runs.map_values(|r: RunStats| r.budget.memory_bytes as int)
}

/// `m` occurs in `s` and nothing in `s` is below it.
pub open spec fn is_least(m: int, s: Seq<int>) -> bool {
    &&& s.contains(m)
    &&& forall|i: int| 0 <= i < s.len() ==> m <= #[trigger] s[i]
}

/// `m` occurs in `s` and nothing in `s` is above it.
pub open spec fn is_greatest(m: int, s: Seq<int>) -> bool {
    &&& s.contains(m)
    &&& forall|i: int| 0 <= i < s.len() ==> #[trigger] s[i] <= m
}

/// The sum of `s`.
pub open spec fn total(s: Seq<int>) -> int
    decreases s.len(),
{
    if s.len() == 0 {
        0
    } else {
        total(s.drop_last()) + s.last()
    }
}

/// `x`, or `cap` where `x` exceeds it: what an accumulator that saturates
/// at `cap` holds after adding up non-negative terms whose sum is `x`.
pub open spec fn capped(x: int, cap: int) -> int {
    if x > cap {
        cap
    } else {
        x
    }
}

/// The truncated quotient of the saturated sum of `s` by its length.
pub open spec fn capped_average(s: Seq<int>, cap: int) -> int {
    capped(total(s), cap) / (s.len() as int)
}

/// Some run's result differs from the first run's.
pub open spec fn results_differ(runs: Seq<RunStats>) -> bool {
    exists|i: int| 0 <= i < runs.len() && (#[trigger] runs[i]).result@ != runs[0].result@
}

/// `s` if it fits in `max_len` characters, else its first `max_len - 1`
/// characters followed by the ellipsis.
pub open spec fn spec_truncate(s: Seq<char>, max_len: int) -> Seq<char> {
    if s.len() <= max_len {
        s
    } else {
        s.subrange(0, max_len - 1).push(ELLIPSIS)
    }
}

/// The runs whose result differs from the first run's, in batch order.
pub open spec fn differing(runs: Seq<RunStats>) -> Seq<RunStats> {
    runs.filter(|r: RunStats| r.result@ != runs[0].result@)
}

/// Run `i` of the batch carries the number `i + 1`.
pub open spec fn numbered(runs: Seq<RunStats>) -> bool {
    forall|i: int| 0 <= i < runs.len() ==> (#[trigger] runs[i]).iteration == i + 1
}

/// Appending a term adds it to the sum.
pub proof fn lemma_total_push(s: Seq<int>, x: int)
    ensures
        total(s.push(x)) == total(s) + x,
{
    assert(s.push(x).drop_last() =~= s);
}

/// A sum of `s.len()` terms lies between that many times a lower bound and
/// that many times an upper bound of the terms.
pub proof fn lemma_total_bounds(s: Seq<int>, lo: int, hi: int)
    requires
        forall|i: int| 0 <= i < s.len() ==> lo <= #[trigger] s[i] <= hi,
    ensures
        lo * s.len() <= total(s) <= hi * s.len(),
    decreases s.len(),
{
    if s.len() > 0 {
        let front = s.drop_last();
        lemma_total_bounds(front, lo, hi);
        assert(lo * s.len() == lo * front.len() + lo) by (nonlinear_arith)
            requires
                s.len() == front.len() + 1,
        ;
        assert(hi * s.len() == hi * front.len() + hi) by (nonlinear_arith)
            requires
                s.len() == front.len() + 1,
        ;
    }
}

/// The saturated average of non-negative readings never exceeds their
/// maximum. It reaches their minimum exactly when the minimum times the
/// number of readings still fits under the cap: beyond that the accumulator
/// has saturated below what the readings add up to.
pub proof fn lemma_capped_average_bounds(s: Seq<int>, lo: int, hi: int, cap: int)
    requires
        s.len() > 0,
        is_least(lo, s),
        is_greatest(hi, s),
        0 <= lo,
        hi <= cap,
    ensures
        capped_average(s, cap) <= hi,
        lo <= capped_average(s, cap) <==> lo * s.len() <= cap,
{
    let n = s.len() as int;
    let c = capped(total(s), cap);
    lemma_total_bounds(s, lo, hi);
    assert(c / n <= hi) by (nonlinear_arith)
        requires
            c <= hi * n,
            n > 0,
    ;
    if lo * n <= cap {
        assert(lo <= c / n) by (nonlinear_arith)
            requires
                lo * n <= c,
                n > 0,
        ;
    } else {
        assert(c / n < lo) by (nonlinear_arith)
            requires
                c < lo * n,
                n > 0,
        ;
    }
}

/// Cuts `s` down to `max_len` characters: a string that fits is returned
/// unchanged, a longer one keeps its first `max_len - 1` characters and ends
/// with the ellipsis, so that it has exactly `max_len` characters.
pub fn truncate(s: &str, max_len: usize) -> (r: String)
    requires
        s@.len() <= max_len || max_len >= 1,
    ensures
        r@ == spec_truncate(s@, max_len as int),
        s@.len() <= max_len ==> r@ == s@,
        s@.len() > max_len ==> r@.len() == max_len && r@.last() == ELLIPSIS,
{
    if s.unicode_len() <= max_len {
        s.to_owned()
    } else {
        let mut out = s.substring_char(0, max_len - 1).to_owned();
        out.push(ELLIPSIS);
        out
    }
}

impl AggregateStats {
    /// `self` is the summary of `runs`: it holds them, the extremes of each
    /// metric are attained and bound every run, each average is the
    /// saturated sum divided by the number of runs, and the flag says
    /// whether any result differs from the first.
    pub open spec fn summarizes(&self, runs: Seq<RunStats>) -> bool {
        &&& runs.len() > 0
        &&& self.runs@ == runs
        &&& is_least(self.min_duration as int, durations(runs))
        &&& is_greatest(self.max_duration as int, durations(runs))
        &&& self.avg_duration == capped_average(durations(runs), u128::MAX as int)
        &&& is_least(self.min_cpu as int, cpu_readings(runs))
        &&& is_greatest(self.max_cpu as int, cpu_readings(runs))
        &&& self.avg_cpu == capped_average(cpu_readings(runs), u64::MAX as int)
        &&& is_least(self.min_memory as int, memory_readings(runs))
        &&& is_greatest(self.max_memory as int, memory_readings(runs))
        &&& self.avg_memory == capped_average(memory_readings(runs), u64::MAX as int)
        &&& self.inconsistent_results == results_differ(runs)
    }

    /// Summarises a non-empty batch of runs.
    pub fn from_runs(runs: Vec<RunStats>) -> (stats: AggregateStats)
        requires
            runs@.len() > 0,
        ensures
            stats.summarizes(runs@),
    {
        let n = runs.len();
        let mut min_dur = runs[0].duration;
        let mut max_dur = runs[0].duration;
        let mut total_dur: u128 = 0;
        let mut min_cpu = runs[0].budget.cpu_instructions;
        let mut max_cpu = runs[0].budget.cpu_instructions;
        let mut total_cpu: u64 = 0;
        let mut min_mem = runs[0].budget.memory_bytes;
        let mut max_mem = runs[0].budget.memory_bytes;
        let mut total_mem: u64 = 0;
        let mut inconsistent = false;

        let ghost durs = durations(runs@);
        let ghost cpus = cpu_readings(runs@);
        let ghost mems = memory_readings(runs@);
        assert(durs[0] == min_dur && cpus[0] == min_cpu && mems[0] == min_mem);

        let mut i: usize = 0;
        while i < n
            invariant
                n == runs@.len(),
                0 < n,
                i <= n,
                durs == durations(runs@),
                cpus == cpu_readings(runs@),
                mems == memory_readings(runs@),
                durs.contains(min_dur as int),
                durs.contains(max_dur as int),
                cpus.contains(min_cpu as int),
                cpus.contains(max_cpu as int),
                mems.contains(min_mem as int),
                mems.contains(max_mem as int),
                forall|j: int| 0 <= j < i ==> min_dur <= #[trigger] durs[j] <= max_dur,
                forall|j: int| 0 <= j < i ==> min_cpu <= #[trigger] cpus[j] <= max_cpu,
                forall|j: int| 0 <= j < i ==> min_mem <= #[trigger] mems[j] <= max_mem,
                0 <= total(durs.take(i as int)),
                0 <= total(cpus.take(i as int)),
                0 <= total(mems.take(i as int)),
                total_dur == capped(total(durs.take(i as int)), u128::MAX as int),
                total_cpu == capped(total(cpus.take(i as int)), u64::MAX as int),
                total_mem == capped(total(mems.take(i as int)), u64::MAX as int),
                inconsistent <==> exists|j: int|
                    0 <= j < i && (#[trigger] runs@[j]).result@ != runs@[0].result@,
            decreases n - i,
        {
            let run = &runs[i];
            proof {
                assert(durs.take(i + 1) =~= durs.take(i as int).push(durs[i as int]));
                assert(cpus.take(i + 1) =~= cpus.take(i as int).push(cpus[i as int]));
                assert(mems.take(i + 1) =~= mems.take(i as int).push(mems[i as int]));
                lemma_total_push(durs.take(i as int), durs[i as int]);
                lemma_total_push(cpus.take(i as int), cpus[i as int]);
                lemma_total_push(mems.take(i as int), mems[i as int]);
            }

            if run.duration < min_dur {
                min_dur = run.duration;
            }
            if run.duration > max_dur {
                max_dur = run.duration;
            }
            total_dur = total_dur.saturating_add(run.duration);

            let cpu = run.budget.cpu_instructions;
            if cpu < min_cpu {
                min_cpu = cpu;
            }
            if cpu > max_cpu {
                max_cpu = cpu;
            }
            total_cpu = total_cpu.saturating_add(cpu);

            let mem = run.budget.memory_bytes;
            if mem < min_mem {
                min_mem = mem;
            }
            if mem > max_mem {
                max_mem = mem;
            }
            total_mem = total_mem.saturating_add(mem);

            if run.result != runs[0].result {
                inconsistent = true;
            }
            i = i + 1;
        }

        proof {
            assert(durs.take(n as int) =~= durs);
            assert(cpus.take(n as int) =~= cpus);
            assert(mems.take(n as int) =~= mems);
        }
        AggregateStats {
            runs,
            min_duration: min_dur,
            max_duration: max_dur,
            avg_duration: total_dur / (n as u128),
            min_cpu,
            max_cpu,
            avg_cpu: total_cpu / (n as u64),
            min_memory: min_mem,
            max_memory: max_mem,
            avg_memory: total_mem / (n as u64),
            inconsistent_results: inconsistent,
        }
    }

    /// `from_runs` for a caller that cannot rule out an empty batch: the
    /// summary when there is a run, the violated precondition when there is
    /// none.
    pub fn try_from_runs(runs: Vec<RunStats>) -> (r: Result<AggregateStats, DebuggerError>)
        ensures
            runs@.len() > 0 ==> (r matches Ok(stats) && stats.summarizes(runs@)),
            runs@.len() == 0 ==> (r matches Err(e) && e is PreconditionViolation),
    {
        if runs.len() == 0 {
            Err(DebuggerError::PreconditionViolation("Cannot aggregate zero runs".to_owned()))
        } else {
            Ok(AggregateStats::from_runs(runs))
        }
    }

    /// The runs that disagree with the first one, each with its iteration
    /// number and its result cut down to the display width.
    pub fn divergent_runs(&self) -> (out: Vec<Divergence>)
        ensures
            out@.len() == differing(self.runs@).len(),
            forall|k: int|
                0 <= k < out@.len() ==> {
                    &&& (#[trigger] out@[k]).iteration == differing(self.runs@)[k].iteration
                    &&& out@[k].result@ == spec_truncate(
                        differing(self.runs@)[k].result@,
                        RESULT_DISPLAY_WIDTH as int,
                    )
                },
    {
        let mut out: Vec<Divergence> = Vec::new();
        let n = self.runs.len();
        let ghost differs = |r: RunStats| r.result@ != self.runs@[0].result@;
        let mut i: usize = 0;
        while i < n
            invariant
                n == self.runs@.len(),
                i <= n,
                differs == |r: RunStats| r.result@ != self.runs@[0].result@,
                out@.len() == self.runs@.take(i as int).filter(differs).len(),
                forall|k: int|
                    0 <= k < out@.len() ==> {
                        &&& (#[trigger] out@[k]).iteration == self.runs@.take(i as int).filter(
                            differs,
                        )[k].iteration
                        &&& out@[k].result@ == spec_truncate(
                            self.runs@.take(i as int).filter(differs)[k].result@,
                            RESULT_DISPLAY_WIDTH as int,
                        )
                    },
            decreases n - i,
        {
            let run = &self.runs[i];
            proof {
                reveal(Seq::filter);
                assert(self.runs@.take(i + 1).drop_last() =~= self.runs@.take(i as int));
            }
            if run.result != self.runs[0].result {
                out.push(
                    Divergence {
                        iteration: run.iteration,
                        result: truncate(run.result.as_str(), RESULT_DISPLAY_WIDTH),
                    },
                );
            }
            i = i + 1;
        }
        proof {
            assert(self.runs@.take(n as int) =~= self.runs@);
        }
        out
    }

    /// No average exceeds its maximum, and an average is at least its
    /// minimum exactly when the minimum times the number of runs fits the
    /// accumulator.
    pub proof fn lemma_average_within_extremes(&self, runs: Seq<RunStats>)
        requires
            self.summarizes(runs),
        ensures
            self.avg_duration <= self.max_duration,
            self.avg_cpu <= self.max_cpu,
            self.avg_memory <= self.max_memory,
            self.min_duration <= self.avg_duration <==> self.min_duration * runs.len()
                <= u128::MAX,
            self.min_cpu <= self.avg_cpu <==> self.min_cpu * runs.len() <= u64::MAX,
            self.min_memory <= self.avg_memory <==> self.min_memory * runs.len() <= u64::MAX,
    {
        lemma_capped_average_bounds(
            durations(runs),
            self.min_duration as int,
            self.max_duration as int,
            u128::MAX as int,
        );
        lemma_capped_average_bounds(
            cpu_readings(runs),
            self.min_cpu as int,
            self.max_cpu as int,
            u64::MAX as int,
        );
        lemma_capped_average_bounds(
            memory_readings(runs),
            self.min_memory as int,
            self.max_memory as int,
            u64::MAX as int,
        );
    }

    /// Every average lies between its minimum and its maximum, as long as
    /// each minimum times the number of runs fits its accumulator.
    pub proof fn lemma_extremes_bracket_average(&self, runs: Seq<RunStats>)
        requires
            self.summarizes(runs),
            self.min_duration * runs.len() <= u128::MAX,
            self.min_cpu * runs.len() <= u64::MAX,
            self.min_memory * runs.len() <= u64::MAX,
        ensures
            self.min_duration <= self.avg_duration <= self.max_duration,
            self.min_cpu <= self.avg_cpu <= self.max_cpu,
            self.min_memory <= self.avg_memory <= self.max_memory,
    {
        self.lemma_average_within_extremes(runs);
    }

    /// Where a metric's sum fits its accumulator, the average is the sum
    /// divided by the number of runs, rounded towards zero.
    pub proof fn lemma_average_is_truncated_mean(&self, runs: Seq<RunStats>)
        requires
            self.summarizes(runs),
        ensures
            total(durations(runs)) <= u128::MAX ==> self.avg_duration == total(durations(runs))
                / (runs.len() as int),
            total(cpu_readings(runs)) <= u64::MAX ==> self.avg_cpu == total(cpu_readings(runs))
                / (runs.len() as int),
            total(memory_readings(runs)) <= u64::MAX ==> self.avg_memory == total(
                memory_readings(runs),
            ) / (runs.len() as int),
    {
    }

    /// Runs that all produced the first run's result are reported as
    /// consistent, with nothing in the divergence report.
    pub proof fn lemma_identical_results_are_consistent(&self, runs: Seq<RunStats>)
        requires
            self.summarizes(runs),
            forall|i: int| 0 <= i < runs.len() ==> (#[trigger] runs[i]).result@ == runs[0].result@,
        ensures
            !self.inconsistent_results,
            differing(runs).len() == 0,
    {
        let differs = |r: RunStats| r.result@ != runs[0].result@;
        if differing(runs).len() > 0 {
            runs.lemma_filter_contains_rev(differs, differing(runs)[0]);
        }
    }

    /// A run whose result differs from the first run's makes the batch
    /// inconsistent, and the divergence report names that run.
    pub proof fn lemma_differing_result_is_reported(&self, runs: Seq<RunStats>, j: int)
        requires
            self.summarizes(runs),
            0 <= j < runs.len(),
            runs[j].result@ != runs[0].result@,
        ensures
            self.inconsistent_results,
            differing(runs).contains(runs[j]),
    {
    }
}

/// One line of the divergence report.
#[derive(Debug, Clone)]
pub struct Divergence {
    /// The number of the run that disagrees with the first.
    pub iteration: u32,
    /// That run's result, cut down to the display width.
    pub result: String,
}

/// What a repeated call needs for each of its sessions: the module, the
/// breakpoints and the storage that every session starts from.
#[derive(Debug)]
pub struct RepeatRunner {
    wasm_bytes: Vec<u8>,
    breakpoints: Vec<String>,
    initial_storage: Option<String>,
}

impl RepeatRunner {
    pub closed spec fn spec_wasm_bytes(&self) -> Vec<u8> {
        self.wasm_bytes
    }

    pub closed spec fn spec_breakpoints(&self) -> Vec<String> {
        self.breakpoints
    }

    pub closed spec fn spec_initial_storage(&self) -> Option<String> {
        self.initial_storage
    }

    pub fn new(wasm_bytes: Vec<u8>, breakpoints: Vec<String>, initial_storage: Option<String>) -> (r:
        Self)
        ensures
            r.spec_wasm_bytes() == wasm_bytes,
            r.spec_breakpoints() == breakpoints,
            r.spec_initial_storage() == initial_storage,
    {
        RepeatRunner { wasm_bytes, breakpoints, initial_storage }
    }

    /// The module that every session of the batch loads.
    pub fn wasm_bytes(&self) -> (r: &Vec<u8>)
        ensures
            *r == self.spec_wasm_bytes(),
    {
        &self.wasm_bytes
    }

    /// The breakpoints that every engine of the batch is built with.
    pub fn breakpoints(&self) -> (r: &Vec<String>)
        ensures
            *r == self.spec_breakpoints(),
    {
        &self.breakpoints
    }

    /// The storage that every session of the batch is seeded with.
    pub fn initial_storage(&self) -> (r: &Option<String>)
        ensures
            *r == self.spec_initial_storage(),
    {
        &self.initial_storage
    }

    /// Opens a batch of `n` iterations, none of them run yet.
    pub fn begin(&self, n: u32) -> (batch: RepeatBatch)
        requires
            n >= 1,
        ensures
            batch.planned() == n,
            batch.recorded().len() == 0,
    {
        RepeatBatch { total: n, runs: Vec::new() }
    }
}

/// How one iteration of a batch ended.
#[derive(Debug)]
pub enum IterationOutcome {
    /// The call returned; the record holds what was measured around it.
    Completed { duration: u128, budget: BudgetInfo, result: String },
    /// Creating the session, seeding it or running the call raised an error.
    Failed(DebuggerError),
}

/// What the caller of a batch does next.
#[derive(Debug)]
pub enum RepeatStep {
    /// Run the next iteration in a fresh session and record its outcome.
    Continue(RepeatBatch),
    /// Every iteration has run: the batch's statistics.
    Finished(AggregateStats),
    /// An iteration failed: its error, with the rest of the batch abandoned.
    Stopped(DebuggerError),
}

/// A batch in progress: how many iterations were asked for and the records
/// of those already run.
#[derive(Debug)]
pub struct RepeatBatch {
    total: u32,
    runs: Vec<RunStats>,
}

impl RepeatBatch {
    #[verifier::type_invariant]
    spec fn inv(&self) -> bool {
        &&& self.runs@.len() < self.total
        &&& numbered(self.runs@)
    }

    /// The number of iterations the batch was opened for.
    pub closed spec fn planned(&self) -> u32 {
        self.total
    }

    /// The records of the iterations already run, in order.
    pub closed spec fn recorded(&self) -> Seq<RunStats> {
        self.runs@
    }

    /// The number of the iteration to run next.
    pub fn next_iteration(&self) -> (i: u32)
        ensures
            i == self.recorded().len() + 1,
            i <= self.planned(),
    {
        proof {
            use_type_invariant(self);
        }
        (self.runs.len() + 1) as u32
    }

    /// Takes in the outcome of the iteration `next_iteration()`. A failure
    /// stops the batch with that error. A completed call is recorded under
    /// its number; after the last one the statistics of all records come
    /// back, before that the batch to carry on with.
    pub fn record(self, outcome: IterationOutcome) -> (step: RepeatStep)
        ensures
            match outcome {
                IterationOutcome::Failed(e) => step == RepeatStep::Stopped(e),
                IterationOutcome::Completed { duration, budget, result } => {
                    let runs = self.recorded().push(
                        RunStats {
                            iteration: (self.recorded().len() + 1) as u32,
                            duration,
                            budget,
                            result,
                        },
                    );
                    &&& numbered(runs)
                    &&& runs.len() == self.planned() ==> (step matches RepeatStep::Finished(stats)
                        && stats.summarizes(runs))
                    &&& runs.len() != self.planned() ==> (step matches RepeatStep::Continue(next)
                        && next.planned() == self.planned() && next.recorded() == runs)
                },
            },
    {
        proof {
            use_type_invariant(&self);
        }
        match outcome {
            IterationOutcome::Failed(e) => RepeatStep::Stopped(e),
            IterationOutcome::Completed { duration, budget, result } => {
                let total = self.total;
                let mut runs = self.runs;
                let iteration = (runs.len() + 1) as u32;
                runs.push(RunStats { iteration, duration, budget, result });
                if runs.len() == total as usize {
                    RepeatStep::Finished(AggregateStats::from_runs(runs))
                } else {
                    RepeatStep::Continue(RepeatBatch { total, runs })
                }
            },
        }
    }
}

} // verus!
