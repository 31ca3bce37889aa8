//! Chaos testing framework: structured fault injection. The engine runs the registered
//! scenarios whose fault class is enabled and aggregates their results.

use vstd::prelude::*;
use std::time::Duration;
use crate::outside::{
    duration_from_millis, duration_from_secs, duration_ge, duration_total_nanos, instant_elapsed, instant_now,
};

verus! {

/// Fault injection classes the chaos engine can simulate.
#[derive(Debug, Clone, Copy, PartialEq, Eq, Hash, Structural)]
pub enum FaultClass {
    /// Network partition (IPC socket unreachable).
    NetworkPartition,
    /// Slow responses (injected latency).
    Latency,
    /// Process crash or restart.
    ProcessCrash,
    /// Resource exhaustion (memory, file descriptors).
    ResourceExhaustion,
    /// Clock skew or time anomalies.
    ClockSkew,
    /// Concurrent mutation storm.
    ConcurrencyStorm,
    /// Corrupt input data.
    CorruptInput,
}

/// The display name of a fault class.
pub open spec fn fault_class_name(f: FaultClass) -> Seq<char> {
    match f {
        FaultClass::NetworkPartition => "network_partition"@,
        FaultClass::Latency => "latency"@,
        FaultClass::ProcessCrash => "process_crash"@,
        FaultClass::ResourceExhaustion => "resource_exhaustion"@,
        FaultClass::ClockSkew => "clock_skew"@,
        FaultClass::ConcurrencyStorm => "concurrency_storm"@,
        FaultClass::CorruptInput => "corrupt_input"@,
    }
}

impl FaultClass {
    /// Display form: the snake-case name of the class.
    pub fn to_string(&self) -> (s: String)
        ensures
            s@ == fault_class_name(*self),
    {
        match self {
            FaultClass::NetworkPartition => String::from_str("network_partition"),
            FaultClass::Latency => String::from_str("latency"),
            FaultClass::ProcessCrash => String::from_str("process_crash"),
            FaultClass::ResourceExhaustion => String::from_str("resource_exhaustion"),
            FaultClass::ClockSkew => String::from_str("clock_skew"),
            FaultClass::ConcurrencyStorm => String::from_str("concurrency_storm"),
            FaultClass::CorruptInput => String::from_str("corrupt_input"),
        }
    }
}

/// Configuration of a chaos run.
#[derive(Debug)]
pub struct ChaosConfig {
    /// Fault classes to inject.
    pub fault_classes: Vec<FaultClass>,
    /// Maximum duration of the whole run.
    pub max_duration: Duration,
    /// Iterations per scenario.
    pub iterations_per_scenario: u32,
    /// Injected latency range for latency faults.
    pub latency_range: (Duration, Duration),
    /// Concurrent task count for concurrency storms.
    pub concurrency_level: u32,
}

impl Clone for ChaosConfig {
    fn clone(&self) -> (r: Self)
        ensures
            r.fault_classes@ == self.fault_classes@,
            r.max_duration == self.max_duration,
            r.iterations_per_scenario == self.iterations_per_scenario,
            r.latency_range == self.latency_range,
            r.concurrency_level == self.concurrency_level,
    {
        ChaosConfig {
            fault_classes: self.fault_classes.clone(),
            max_duration: self.max_duration,
            iterations_per_scenario: self.iterations_per_scenario,
            latency_range: (self.latency_range.0, self.latency_range.1),
            concurrency_level: self.concurrency_level,
        }
    }
}

impl Default for ChaosConfig {
    /// Network partition, latency, concurrency storm and corrupt input; 60 s at most;
    /// 10 iterations per scenario; 50–500 ms of latency; 16 concurrent tasks.
    fn default() -> (r: Self)
        ensures
            r.fault_classes@ == seq![
                FaultClass::NetworkPartition,
                FaultClass::Latency,
                FaultClass::ConcurrencyStorm,
                FaultClass::CorruptInput,
            ],
            duration_total_nanos(r.max_duration) == 60_000_000_000,
            r.iterations_per_scenario == 10,
            duration_total_nanos(r.latency_range.0) == 50_000_000,
            duration_total_nanos(r.latency_range.1) == 500_000_000,
            r.concurrency_level == 16,
    {
        let mut fault_classes: Vec<FaultClass> = Vec::new();
        fault_classes.push(FaultClass::NetworkPartition);
        fault_classes.push(FaultClass::Latency);
        fault_classes.push(FaultClass::ConcurrencyStorm);
        fault_classes.push(FaultClass::CorruptInput);
        let r = ChaosConfig {
            fault_classes,
            max_duration: duration_from_secs(60),
            iterations_per_scenario: 10,
            latency_range: (duration_from_millis(50), duration_from_millis(500)),
            concurrency_level: 16,
        };
        assert(r.fault_classes@ =~= seq![
            FaultClass::NetworkPartition,
            FaultClass::Latency,
            FaultClass::ConcurrencyStorm,
            FaultClass::CorruptInput,
        ]);
        r
    }
}

/// Result of one scenario.
#[derive(Debug, Clone)]
pub struct ScenarioResult {
    /// Name of the scenario.
    pub name: String,
    /// Fault class used.
    pub fault_class: FaultClass,
    /// Whether the system survived.
    pub survived: bool,
    /// Time the scenario took.
    pub duration: Duration,
    /// Errors observed (expected under chaos).
    pub errors_observed: u32,
    /// Successful recoveries.
    pub recoveries: u32,
    /// Notes from the scenario.
    pub notes: Option<String>,
}

/// A fault injection scenario the engine can run.
pub trait ChaosScenario {
    /// Human-readable name.
    fn name(&self) -> &str;

    /// The fault class the scenario injects.
    fn fault_class(&self) -> FaultClass;

    /// Runs the scenario.
    fn execute(&self, config: &ChaosConfig) -> ScenarioResult;
}

/// Aggregated metrics of a chaos run.
#[derive(Debug, Clone)]
pub struct ChaosMetrics {
    /// Scenarios executed.
    pub total_scenarios: u32,
    /// Scenarios the system survived.
    pub survived: u32,
    /// Scenarios the system failed.
    pub failed: u32,
    /// Errors observed across all scenarios.
    pub total_errors: u32,
    /// Recoveries across all scenarios.
    pub total_recoveries: u32,
    /// Wall-clock time of the run.
    pub total_duration: Duration,
    /// The individual results.
    pub results: Vec<ScenarioResult>,
}

/// A count as a `u32`, saturating at `u32::MAX`.
pub open spec fn saturate_u32(n: nat) -> u32 {
    if n <= u32::MAX {
        n as u32
    } else {
        u32::MAX
    }
}

/// Number of results that survived.
pub open spec fn survived_count(rs: Seq<ScenarioResult>) -> nat
    decreases rs.len(),
{
    if rs.len() == 0 {
        0
    } else {
        survived_count(rs.drop_last()) + if rs.last().survived {
            1nat
        } else {
            0nat
        }
    }
}

/// Number of results that failed.
pub open spec fn failed_count(rs: Seq<ScenarioResult>) -> nat
    decreases rs.len(),
{
    if rs.len() == 0 {
        0
    } else {
        failed_count(rs.drop_last()) + if rs.last().survived {
            0nat
        } else {
            1nat
        }
    }
}

/// Sum of the errors observed, wrapping at 2^32.
pub open spec fn errors_sum(rs: Seq<ScenarioResult>) -> u32
    decreases rs.len(),
{
    if rs.len() == 0 {
        0
    } else {
        vstd::wrapping::u32_specs::wrapping_add(errors_sum(rs.drop_last()), rs.last().errors_observed)
    }
}

/// Sum of the recoveries, wrapping at 2^32.
pub open spec fn recoveries_sum(rs: Seq<ScenarioResult>) -> u32
    decreases rs.len(),
{
    if rs.len() == 0 {
        0
    } else {
        vstd::wrapping::u32_specs::wrapping_add(recoveries_sum(rs.drop_last()), rs.last().recoveries)
    }
}

/// The metrics agree with their results: every count is taken from them.
pub open spec fn metrics_agree(m: ChaosMetrics) -> bool {
    &&& m.total_scenarios == saturate_u32(m.results@.len())
    &&& m.survived == saturate_u32(survived_count(m.results@))
    &&& m.failed == saturate_u32(failed_count(m.results@))
    &&& m.total_errors == errors_sum(m.results@)
    &&& m.total_recoveries == recoveries_sum(m.results@)
}

/// Every result either survived or failed.
pub proof fn lemma_survived_failed_partition(rs: Seq<ScenarioResult>)
    ensures
        survived_count(rs) + failed_count(rs) == rs.len(),
    decreases rs.len(),
{
    if rs.len() > 0 {
        lemma_survived_failed_partition(rs.drop_last());
    }
}

/// In metrics that agree with fewer than 2^32 results, survived and failed scenarios
/// add up to the scenarios executed.
pub proof fn lemma_metrics_partition(m: ChaosMetrics)
    requires
        metrics_agree(m),
        m.results@.len() <= u32::MAX,
    ensures
        m.survived + m.failed == m.total_scenarios,
{
    lemma_survived_failed_partition(m.results@);
}

fn saturating_count(n: usize) -> (r: u32)
    ensures
        r == saturate_u32(n as nat),
{
    if n <= u32::MAX as usize {
        n as u32
    } else {
        u32::MAX
    }
}

/// Aggregates results into metrics.
pub fn summarize(results: Vec<ScenarioResult>, total_duration: Duration) -> (m: ChaosMetrics)
    ensures
        m.results@ == results@,
        m.total_duration == total_duration,
        metrics_agree(m),
{
    let mut survived: usize = 0;
    let mut failed: usize = 0;
    let mut errors: u32 = 0;
    let mut recoveries: u32 = 0;
    let mut i: usize = 0;
    while i < results.len()
        invariant
            i <= results@.len(),
            survived == survived_count(results@.subrange(0, i as int)),
            failed == failed_count(results@.subrange(0, i as int)),
            survived + failed == i,
            errors == errors_sum(results@.subrange(0, i as int)),
            recoveries == recoveries_sum(results@.subrange(0, i as int)),
        decreases results@.len() - i,
    {
        let ghost pre = results@.subrange(0, i as int);
        assert(results@.subrange(0, i + 1).drop_last() =~= pre);
        if results[i].survived {
            survived = survived + 1;
        } else {
            failed = failed + 1;
        }
        errors = errors.wrapping_add(results[i].errors_observed);
        recoveries = recoveries.wrapping_add(results[i].recoveries);
        i = i + 1;
    }
    assert(results@.subrange(0, i as int) =~= results@);
    ChaosMetrics {
        total_scenarios: saturating_count(results.len()),
        survived: saturating_count(survived),
        failed: saturating_count(failed),
        total_errors: errors,
        total_recoveries: recoveries,
        total_duration,
        results,
    }
}

/// Whether the configuration enables `fault`.
pub fn fault_enabled(config: &ChaosConfig, fault: FaultClass) -> (r: bool)
    ensures
        r == config.fault_classes@.contains(fault),
{
    let mut i: usize = 0;
    while i < config.fault_classes.len()
        invariant
            i <= config.fault_classes@.len(),
            forall|k: int| 0 <= k < i ==> config.fault_classes@[k] != fault,
        decreases config.fault_classes@.len() - i,
    {
        if config.fault_classes[i] == fault {
            return true;
        }
        i = i + 1;
    }
    false
}

/// `results` is what running `scenarios` in order under `config` gives when the run
/// stops before scenario `stop`: for each earlier scenario whose fault class (as its
/// `fault_class` answered) is enabled, the result its `execute` returned, in order; the
/// other scenarios add nothing.
pub open spec fn run_trace<S: ChaosScenario>(
    scenarios: Seq<S>,
    config: ChaosConfig,
    stop: int,
    results: Seq<ScenarioResult>,
) -> bool
    decreases stop,
{
    if stop <= 0 {
        results.len() == 0
    } else {
        let s = scenarios[stop - 1];
        exists|c: FaultClass|
            #[trigger] call_ensures(S::fault_class, (&s,), c) && if config.fault_classes@.contains(
                c,
            ) {
                &&& results.len() > 0
                &&& call_ensures(S::execute, (&s, &config), results.last())
                &&& run_trace(scenarios, config, stop - 1, results.drop_last())
            } else {
                run_trace(scenarios, config, stop - 1, results)
            }
    }
}

/// One step of a run: scenario `s` is taken with the results `before` and leaves
/// `after`. Its `fault_class` answers some class; if `config` enables it, `after` is
/// `before` with the result of `s`'s `execute` appended; otherwise `after` is `before`.
pub open spec fn trace_step<S: ChaosScenario>(
    s: S,
    config: ChaosConfig,
    before: Seq<ScenarioResult>,
    after: Seq<ScenarioResult>,
) -> bool {
    exists|c: FaultClass|
        #[trigger] call_ensures(S::fault_class, (&s,), c) && if config.fault_classes@.contains(c) {
            &&& after.len() > 0
            &&& call_ensures(S::execute, (&s, &config), after.last())
            &&& after.drop_last() == before
        } else {
            after == before
        }
}

/// The elapsed time `elapsed` has reached the configuration's maximum duration.
pub open spec fn time_is_up(elapsed: Duration, config: ChaosConfig) -> bool {
    duration_total_nanos(elapsed) >= duration_total_nanos(config.max_duration)
}

/// A step extends a trace by one scenario, and adds at most one result.
pub proof fn lemma_trace_step_extends<S: ChaosScenario>(
    scenarios: Seq<S>,
    config: ChaosConfig,
    i: int,
    before: Seq<ScenarioResult>,
    after: Seq<ScenarioResult>,
)
    requires
        0 <= i < scenarios.len(),
        run_trace(scenarios, config, i, before),
        trace_step(scenarios[i], config, before, after),
    ensures
        run_trace(scenarios, config, i + 1, after),
        after.len() <= before.len() + 1,
{
    let s = scenarios[i];
    let c = choose|c: FaultClass|
        #[trigger] call_ensures(S::fault_class, (&s,), c) && if config.fault_classes@.contains(c) {
            &&& after.len() > 0
            &&& call_ensures(S::execute, (&s, &config), after.last())
            &&& after.drop_last() == before
        } else {
            after == before
        };
    assert(call_ensures(S::fault_class, (&s,), c));
}

/// Each scenario of `scenarios` always answers the same fault class, and under
/// `config` always returns the same result.
pub open spec fn deterministic_under<S: ChaosScenario>(scenarios: Seq<S>, config: ChaosConfig) -> bool {
    &&& forall|j: int, c1: FaultClass, c2: FaultClass|
        0 <= j < scenarios.len() && #[trigger] call_ensures(S::fault_class, (&scenarios[j],), c1)
            && #[trigger] call_ensures(S::fault_class, (&scenarios[j],), c2) ==> c1 == c2
    &&& forall|j: int, r1: ScenarioResult, r2: ScenarioResult|
        0 <= j < scenarios.len() && #[trigger] call_ensures(S::execute, (&scenarios[j], &config), r1)
            && #[trigger] call_ensures(S::execute, (&scenarios[j], &config), r2) ==> r1 == r2
}

/// Up to scenario `stop`, a run over `scenarios` with one more scenario appended is a
/// run over `scenarios`.
proof fn lemma_trace_prefix<S: ChaosScenario>(
    scenarios: Seq<S>,
    s: S,
    config: ChaosConfig,
    stop: int,
    results: Seq<ScenarioResult>,
)
    requires
        0 <= stop <= scenarios.len(),
    ensures
        run_trace(scenarios.push(s), config, stop, results) == run_trace(
            scenarios,
            config,
            stop,
            results,
        ),
    decreases stop,
{
    if stop > 0 {
        lemma_trace_prefix(scenarios, s, config, stop - 1, results);
        lemma_trace_prefix(scenarios, s, config, stop - 1, results.drop_last());
        assert(scenarios.push(s)[stop - 1] == scenarios[stop - 1]);
    }
}

/// With deterministic scenarios, a run up to a given scenario has one outcome.
proof fn lemma_trace_unique<S: ChaosScenario>(
    scenarios: Seq<S>,
    config: ChaosConfig,
    stop: int,
    a: Seq<ScenarioResult>,
    b: Seq<ScenarioResult>,
)
    requires
        0 <= stop <= scenarios.len(),
        deterministic_under(scenarios, config),
        run_trace(scenarios, config, stop, a),
        run_trace(scenarios, config, stop, b),
    ensures
        a == b,
    decreases stop,
{
    if stop == 0 {
        assert(a =~= b);
    } else {
        let sc = scenarios[stop - 1];
        let ca = choose|c: FaultClass|
            #[trigger] call_ensures(S::fault_class, (&sc,), c) && if config.fault_classes@.contains(
                c,
            ) {
                &&& a.len() > 0
                &&& call_ensures(S::execute, (&sc, &config), a.last())
                &&& run_trace(scenarios, config, stop - 1, a.drop_last())
            } else {
                run_trace(scenarios, config, stop - 1, a)
            };
        let cb = choose|c: FaultClass|
            #[trigger] call_ensures(S::fault_class, (&sc,), c) && if config.fault_classes@.contains(
                c,
            ) {
                &&& b.len() > 0
                &&& call_ensures(S::execute, (&sc, &config), b.last())
                &&& run_trace(scenarios, config, stop - 1, b.drop_last())
            } else {
                run_trace(scenarios, config, stop - 1, b)
            };
        assert(ca == cb);
        if config.fault_classes@.contains(ca) {
            lemma_trace_unique(scenarios, config, stop - 1, a.drop_last(), b.drop_last());
            assert(a.last() == b.last());
            assert(a =~= a.drop_last().push(a.last()));
            assert(b =~= b.drop_last().push(b.last()));
        } else {
            lemma_trace_unique(scenarios, config, stop - 1, a, b);
        }
    }
}

/// A scenario added to an engine runs last: if every scenario answers deterministically,
/// the added one's fault class is enabled, and both runs take every scenario, the run
/// after `add_scenario(s)` gives the results of the run before, then the result of `s`.
pub proof fn lemma_added_scenario_runs_last<S: ChaosScenario>(
    scenarios: Seq<S>,
    s: S,
    config: ChaosConfig,
    before: Seq<ScenarioResult>,
    after: Seq<ScenarioResult>,
)
    requires
        deterministic_under(scenarios.push(s), config),
        forall|c: FaultClass|
            #[trigger] call_ensures(S::fault_class, (&s,), c) ==> config.fault_classes@.contains(c),
        run_trace(scenarios, config, scenarios.len() as int, before),
        run_trace(scenarios.push(s), config, scenarios.len() + 1int, after),
    ensures
        after.len() == before.len() + 1,
        after.drop_last() == before,
        call_ensures(S::execute, (&s, &config), after.last()),
{
    let all = scenarios.push(s);
    let n = scenarios.len() as int;
    assert(all[n] == s);
    let c = choose|c: FaultClass|
        #[trigger] call_ensures(S::fault_class, (&s,), c) && if config.fault_classes@.contains(c) {
            &&& after.len() > 0
            &&& call_ensures(S::execute, (&s, &config), after.last())
            &&& run_trace(all, config, n, after.drop_last())
        } else {
            run_trace(all, config, n, after)
        };
    assert(config.fault_classes@.contains(c));
    lemma_trace_prefix(scenarios, s, config, n, after.drop_last());
    assert(deterministic_under(scenarios, config)) by {
        assert forall|j: int, c1: FaultClass, c2: FaultClass|
            0 <= j < scenarios.len() && #[trigger] call_ensures(
                S::fault_class,
                (&scenarios[j],),
                c1,
            ) && #[trigger] call_ensures(S::fault_class, (&scenarios[j],), c2) implies c1 == c2 by {
            assert(all[j] == scenarios[j]);
        }
        assert forall|j: int, r1: ScenarioResult, r2: ScenarioResult|
            0 <= j < scenarios.len() && #[trigger] call_ensures(
                S::execute,
                (&scenarios[j], &config),
                r1,
            ) && #[trigger] call_ensures(S::execute, (&scenarios[j], &config), r2) implies r1
            == r2 by {
            assert(all[j] == scenarios[j]);
        }
    }
    lemma_trace_unique(scenarios, config, n, after.drop_last(), before);
}

/// The chaos engine: registered scenarios and the configuration they run under.
pub struct ChaosEngine<S: ChaosScenario> {
    config: ChaosConfig,
    scenarios: Vec<S>,
}

impl<S: ChaosScenario> ChaosEngine<S> {
    /// An engine with no scenarios.
    pub fn new(config: ChaosConfig) -> (r: Self)
        ensures
            r.configuration() == config,
            r.scenario_count() == 0,
            r.registered() == Seq::<S>::empty(),
    {
        ChaosEngine { config, scenarios: Vec::new() }
    }

    /// The configuration the engine runs under.
    pub closed spec fn configuration(&self) -> ChaosConfig {
        self.config
    }

    /// Number of registered scenarios.
    pub closed spec fn scenario_count(&self) -> nat {
        self.scenarios@.len()
    }

    /// The registered scenarios, in order.
    pub closed spec fn registered(&self) -> Seq<S> {
        self.scenarios@
    }

    /// An engine with the default configuration and no scenarios.
    pub fn with_defaults() -> (r: Self)
        ensures
            r.configuration().fault_classes@ == seq![
                FaultClass::NetworkPartition,
                FaultClass::Latency,
                FaultClass::ConcurrencyStorm,
                FaultClass::CorruptInput,
            ],
            duration_total_nanos(r.configuration().max_duration) == 60_000_000_000,
            r.configuration().iterations_per_scenario == 10,
            duration_total_nanos(r.configuration().latency_range.0) == 50_000_000,
            duration_total_nanos(r.configuration().latency_range.1) == 500_000_000,
            r.configuration().concurrency_level == 16,
            r.scenario_count() == 0,
            r.registered() == Seq::<S>::empty(),
    {
        Self::new(ChaosConfig::default())
    }

    /// Registers a scenario.
    pub fn add_scenario(&mut self, scenario: S)
        ensures
            final(self).configuration() == old(self).configuration(),
            final(self).scenario_count() == old(self).scenario_count() + 1,
            final(self).registered() == old(self).registered().push(scenario),
    {
        self.scenarios.push(scenario);
    }

    /// One step of a run: with the time `elapsed` since the run began, stops (returning
    /// `true`, `results` unchanged) once it has reached the maximum duration; otherwise
    /// takes scenario `i`: its result is appended when its fault class is enabled.
    pub fn run_step(&self, i: usize, elapsed: &Duration, results: &mut Vec<ScenarioResult>) -> (stop:
        bool)
        requires
            i < self.scenario_count(),
        ensures
            stop == time_is_up(*elapsed, self.configuration()),
            stop ==> final(results)@ == old(results)@,
            !stop ==> trace_step(
                self.registered()[i as int],
                self.configuration(),
                old(results)@,
                final(results)@,
            ),
    {
        if duration_ge(elapsed, &self.config.max_duration) {
            return true;
        }
        let scenario = &self.scenarios[i];
        let class = scenario.fault_class();
        if fault_enabled(&self.config, class) {
            let result = scenario.execute(&self.config);
            results.push(result);
            assert(results@.drop_last() =~= old(results)@);
        }
        assert(call_ensures(S::fault_class, (scenario,), class));
        false
    }

    /// Runs, in order, every registered scenario whose fault class is enabled, and
    /// aggregates the results. Before each scenario it reads the time elapsed since the
    /// run began, and it stops there only when that time has reached the maximum
    /// duration. The total duration is the time elapsed at the end, and never less than
    /// the reading that stopped the run (the elapsed time of a monotonic clock does not
    /// run back, so the two agree in practice). Hence a run whose total duration stays
    /// under the maximum took every scenario. With a maximum duration of zero, nothing
    /// runs.
    pub fn run(&self) -> (m: ChaosMetrics)
        ensures
            metrics_agree(m),
            exists|stop: int|
                0 <= stop <= self.scenario_count() && #[trigger] run_trace(
                    self.registered(),
                    self.configuration(),
                    stop,
                    m.results@,
                ) && (stop < self.scenario_count() ==> time_is_up(
                    m.total_duration,
                    self.configuration(),
                )),
            !time_is_up(m.total_duration, self.configuration()) ==> run_trace(
                self.registered(),
                self.configuration(),
                self.scenario_count() as int,
                m.results@,
            ),
            m.results@.len() <= self.scenario_count(),
            duration_total_nanos(self.configuration().max_duration) == 0 ==> m.results@.len() == 0,
    {
        let start = instant_now();
        let mut results: Vec<ScenarioResult> = Vec::new();
        let mut i: usize = 0;
        let mut stopped_at: Option<Duration> = None;
        while stopped_at.is_none() && i < self.scenarios.len()
            invariant
                i <= self.scenarios@.len(),
                results@.len() <= i,
                run_trace(self.scenarios@, self.config, i as int, results@),
                stopped_at matches Some(d) ==> time_is_up(d, self.config),
                duration_total_nanos(self.config.max_duration) == 0 ==> results@.len() == 0,
            decreases self.scenarios@.len() - i + (if stopped_at is Some { 0int } else { 1int }),
        {
            let elapsed = instant_elapsed(&start);
            let ghost before = results@;
            if self.run_step(i, &elapsed, &mut results) {
                stopped_at = Some(elapsed);
            } else {
                proof {
                    lemma_trace_step_extends(self.scenarios@, self.config, i as int, before, results@);
                    assert(duration_total_nanos(elapsed) >= 0);
                }
                i = i + 1;
            }
        }
        let end = instant_elapsed(&start);
        let total = match stopped_at {
            Some(d) => if duration_ge(&end, &d) {
                end
            } else {
                d
            },
            None => end,
        };
        let m = summarize(results, total);
        assert(run_trace(self.registered(), self.configuration(), i as int, m.results@));
        assert(0 <= i <= self.scenario_count());
        m
    }

    /// The configuration.
    pub fn config(&self) -> (r: &ChaosConfig)
        ensures
            *r == self.configuration(),
    {
        &self.config
    }
}

} // verus!
