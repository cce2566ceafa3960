//! The runner: the policy of one benchmarking session, and the run itself.

use vstd::prelude::*;
use crate::config::{lemma_overrides_take_precedence, ScenarioConfig, ScenarioConfigView};
use crate::error::CalliperError;
use crate::report::{CallgrindResultFilename, Report, ReportView};
use crate::role::{Role, RoleSignal};
use crate::scenario::Scenario;

verus! {

/// Default settings for every scenario, and a bound on how many workers are
/// profiled at the same time.
#[derive(Debug, PartialEq)]
pub struct Runner {
    parallelism: usize,
    defaults: ScenarioConfig,
}

/// What a [`Runner`] holds.
pub struct RunnerView {
    /// How many workers may be profiled at the same time; at least one.
    pub parallelism: usize,
    /// The settings of a scenario that overrides nothing.
    pub defaults: ScenarioConfig,
}

impl View for Runner {
    type V = RunnerView;

    closed spec fn view(&self) -> RunnerView {
        RunnerView { parallelism: self.parallelism, defaults: self.defaults }
    }
}

/// `reports` binds each of `settings` to the output at its position, in the
/// order of submission.
pub open spec fn assembled<'a, F: Fn()>(
    settings: Seq<&'a Scenario<F>>,
    outputs: Seq<CallgrindResultFilename>,
    reports: Seq<Report<'a, F>>,
) -> bool {
    &&& reports.len() == settings.len()
    &&& forall|i: int|
        0 <= i < reports.len() ==> (#[trigger] reports[i])@ == (ReportView {
            scenario: settings[i]@,
            run_idx: i as usize,
            results: outputs[i],
        })
}

/// The settings under which `runner` has `scenario` profiled: the scenario's
/// own, laid over the runner's defaults.
pub open spec fn effective<F: Fn()>(runner: Runner, scenario: Scenario<F>) -> ScenarioConfigView {
    runner@.defaults@.overwrite(scenario@.config@)
}

/// What the controller answers once the spawning service has answered
/// `spawned`: a failure of the service comes back as it is, and its outputs
/// come back bound to the scenarios, one report each, in the order of
/// submission.
pub open spec fn controller_answer<'a, F: Fn()>(
    settings: Seq<&'a Scenario<F>>,
    spawned: Result<Vec<CallgrindResultFilename>, CalliperError>,
    answer: Result<Vec<Report<'a, F>>, CalliperError>,
) -> bool {
    match spawned {
        Err(failure) => answer == Err::<Vec<Report<'a, F>>, CalliperError>(failure),
        Ok(outputs) => answer matches Ok(reports) && assembled(settings, outputs@, reports@),
    }
}

/// What a run of `runner` over `settings` may answer, in a process whose role
/// resolver reported `signal`, with `spawn` as the spawning service.
///
/// - A signal that does not resolve to a role is answered with the failure of
///   the resolution, and with nothing else.
/// - A worker has run the function of the scenario at its position, and
///   answers with no report.
/// - The controller has asked `spawn` for the submitted scenarios, under the
///   runner's defaults and bound, and answers as [`controller_answer`] says
///   for what `spawn` answered.
pub open spec fn run_answer<'a, F, S>(
    runner: Runner,
    signal: RoleSignal,
    settings: Vec<&'a Scenario<F>>,
    spawn: S,
    answer: Result<Vec<Report<'a, F>>, CalliperError>,
) -> bool where
    F: Fn(),
    S: FnOnce(&Vec<&'a Scenario<F>>, &ScenarioConfig, usize) -> Result<
        Vec<CallgrindResultFilename>,
        CalliperError,
    >,
 {
    match signal.resolve_spec(settings.len()) {
        Err(failure) => answer == Err::<Vec<Report<'a, F>>, CalliperError>(failure),
        Ok(Role::Worker(position)) => {
            &&& call_ensures(settings[position as int]@.func, (), ())
            &&& answer matches Ok(reports) && reports@.len() == 0
        },
        Ok(Role::Controller) => exists|
            spawned: Result<Vec<CallgrindResultFilename>, CalliperError>,
        |
            #[trigger] call_ensures(
                spawn,
                (&settings, &runner@.defaults, runner@.parallelism),
                spawned,
            ) && controller_answer(settings@, spawned, answer),
    }
}

impl Clone for Runner {
    /// A second runner with the same bound and the same defaults.
    fn clone(&self) -> (runner: Self)
        ensures
            runner@ == self@,
    {
        proof {
            use_type_invariant(self);
        }
        Runner { parallelism: self.parallelism, defaults: self.defaults.clone() }
    }
}

impl Default for Runner {
    /// One worker at a time, and defaults that set nothing.
    fn default() -> (runner: Self)
        ensures
            runner@.parallelism == 1,
            runner@.defaults@ == ScenarioConfigView::unset(),
    {
        Runner { parallelism: 1, defaults: ScenarioConfig::default() }
    }
}

impl Runner {
    /// A runner always admits at least one worker.
    #[verifier::type_invariant]
    spec fn admits_a_worker(self) -> bool {
        self.parallelism >= 1
    }

    /// Override a default configuration.
    pub fn config(self, config: ScenarioConfig) -> (runner: Self)
        ensures
            runner@ == (RunnerView { parallelism: self@.parallelism, defaults: config }),
    {
        proof {
            use_type_invariant(&self);
        }
        Runner { parallelism: self.parallelism, defaults: config }
    }

    /// An upper bound of profiler instances running at the same time. Since the
    /// profiler counts events and does not measure wall time, it is acceptable
    /// to run different scenarios in parallel.
    /// Defaults to 1. A bound of zero would admit no worker at all and is not
    /// accepted.
    pub fn parallelism(self, parallelism: usize) -> (runner: Self)
        requires
            parallelism != 0,
        ensures
            runner@ == (RunnerView { parallelism, defaults: self@.defaults }),
    {
        Runner { parallelism, defaults: self.defaults }
    }

    /// The bound on workers profiled at the same time.
    pub fn get_parallelism(&self) -> (parallelism: usize)
        ensures
            parallelism == self@.parallelism,
            parallelism >= 1,
    {
        proof {
            use_type_invariant(self);
        }
        self.parallelism
    }

    /// The settings of a scenario that overrides nothing.
    pub fn get_defaults(&self) -> (defaults: &ScenarioConfig)
        ensures
            defaults == self@.defaults,
    {
        &self.defaults
    }

    /// The settings under which `scenario` is profiled: its own laid over
    /// the runner's defaults.
    pub fn effective_config<F: Fn()>(&self, scenario: &Scenario<F>) -> (config: ScenarioConfig)
        ensures
            config@ == effective(*self, *scenario),
    {
        self.defaults.overwrite(scenario.get_config())
    }

    /// Depending on the role of this process, this function either:
    /// - asks `spawn` to start this program again under the profiler, once for
    ///   each of `settings`, and binds the outputs to the scenarios
    ///   (controller), or
    /// - runs the function under benchmark (worker).
    ///
    /// `signal` is what the role resolver reported for this process. A worker
    /// runs the function of the scenario at its position, once, before it
    /// returns; its answer holds no report, since the controller is the one who
    /// looks at results. The controller hands `spawn` the submitted scenarios,
    /// the defaults and the bound on parallel workers, and waits for all of its
    /// answer: there is no partial result.
    ///
    /// `spawn` must answer with one output for each scenario.
    pub fn run<'a, F, S>(
        &self,
        signal: RoleSignal,
        settings: Vec<&'a Scenario<F>>,
        spawn: S,
    ) -> (answer: Result<Vec<Report<'a, F>>, CalliperError>) where
        F: Fn(),
        S: FnOnce(&Vec<&'a Scenario<F>>, &ScenarioConfig, usize) -> Result<
            Vec<CallgrindResultFilename>,
            CalliperError,
        >,

        requires
            signal is NoRoleAssigned ==> call_requires(
                spawn,
                (&settings, &self@.defaults, self@.parallelism),
            ),
            forall|outputs: Vec<CallgrindResultFilename>|
                signal is NoRoleAssigned && #[trigger] call_ensures(
                    spawn,
                    (&settings, &self@.defaults, self@.parallelism),
                    Ok(outputs),
                ) ==> outputs.len() == settings.len(),
        ensures
            run_answer(*self, signal, settings, spawn, answer),
    {
        match signal.resolve(settings.len()) {
            Err(failure) => Err(failure),
            Ok(Role::Worker(position)) => {
                settings[position].invoke();
                Ok(Vec::new())
            },
            Ok(Role::Controller) => {
                let spawned = spawn(&settings, &self.defaults, self.parallelism);
                Runner::collect(&settings, spawned)
            },
        }
    }

    /// What the controller answers once the spawning service has answered
    /// `spawned`. The service answers for all workers at once: either every
    /// scenario gets its report, or the failure of the service is the answer.
    ///
    /// Where the service answered with outputs, there must be one for each
    /// scenario.
    pub fn collect<'a, F: Fn()>(
        settings: &Vec<&'a Scenario<F>>,
        spawned: Result<Vec<CallgrindResultFilename>, CalliperError>,
    ) -> (answer: Result<Vec<Report<'a, F>>, CalliperError>)
        requires
            spawned matches Ok(outputs) ==> outputs.len() == settings.len(),
        ensures
            controller_answer(settings@, spawned, answer),
    {
        match spawned {
            Err(failure) => Err(failure),
            Ok(outputs) => Ok(Runner::assemble(settings, outputs)),
        }
    }

    /// Binds each scenario to the output that the spawning service reported
    /// for its position. There must be one output for each scenario.
    pub fn assemble<'a, F: Fn()>(
        settings: &Vec<&'a Scenario<F>>,
        outputs: Vec<CallgrindResultFilename>,
    ) -> (reports: Vec<Report<'a, F>>)
        requires
            outputs.len() == settings.len(),
        ensures
            assembled(settings@, outputs@, reports@),
    {
        let ghost outs = outputs@;
        let mut reports: Vec<Report<'a, F>> = Vec::new();
        let mut run_idx: usize = 0;
        for output in it: outputs
            invariant
                it.seq() == outs,
                outs.len() == settings.len(),
                run_idx == it.index(),
                reports.len() == run_idx,
                forall|i: int|
                    0 <= i < reports.len() ==> (#[trigger] reports[i])@ == (ReportView {
                        scenario: settings[i]@,
                        run_idx: i as usize,
                        results: outs[i],
                    }),
        {
            reports.push(Report::new(settings[run_idx], run_idx, output));
            run_idx += 1;
        }
        reports
    }
}

/// A worker runs its own scenario: where the signal is a position inside the
/// submission, the run has run the function of the scenario at that position,
/// and it answers with no report.
pub proof fn lemma_worker_runs_the_scenario_at_its_position<'a, F, S>(
    runner: Runner,
    position: usize,
    settings: Vec<&'a Scenario<F>>,
    spawn: S,
    answer: Result<Vec<Report<'a, F>>, CalliperError>,
) where
    F: Fn(),
    S: FnOnce(&Vec<&'a Scenario<F>>, &ScenarioConfig, usize) -> Result<
        Vec<CallgrindResultFilename>,
        CalliperError,
    >,

    requires
        position < settings.len(),
        run_answer(runner, RoleSignal::Worker(position), settings, spawn, answer),
    ensures
        call_ensures(settings[position as int]@.func, (), ()),
        answer matches Ok(reports) && reports@.len() == 0,
{
}

/// A position outside the submission is refused: where the signal is a
/// position at or past the number of submitted scenarios, the run fails with
/// that position and that number, whatever was submitted.
pub proof fn lemma_position_out_of_bounds_is_refused<'a, F, S>(
    runner: Runner,
    position: usize,
    settings: Vec<&'a Scenario<F>>,
    spawn: S,
    answer: Result<Vec<Report<'a, F>>, CalliperError>,
) where
    F: Fn(),
    S: FnOnce(&Vec<&'a Scenario<F>>, &ScenarioConfig, usize) -> Result<
        Vec<CallgrindResultFilename>,
        CalliperError,
    >,

    requires
        position >= settings.len(),
        run_answer(runner, RoleSignal::Worker(position), settings, spawn, answer),
    ensures
        answer == Err::<Vec<Report<'a, F>>, CalliperError>(
            CalliperError::RunIdOutOfBounds { value: position, limit: settings.len() },
        ),
{
}

/// An unreadable signal is taken for neither role: the run fails with what
/// the resolver said of the signal, unchanged.
pub proof fn lemma_unreadable_signal_is_refused<'a, F, S>(
    runner: Runner,
    details: String,
    settings: Vec<&'a Scenario<F>>,
    spawn: S,
    answer: Result<Vec<Report<'a, F>>, CalliperError>,
) where
    F: Fn(),
    S: FnOnce(&Vec<&'a Scenario<F>>, &ScenarioConfig, usize) -> Result<
        Vec<CallgrindResultFilename>,
        CalliperError,
    >,

    requires
        run_answer(runner, RoleSignal::Malformed(details), settings, spawn, answer),
    ensures
        answer == Err::<Vec<Report<'a, F>>, CalliperError>(
            CalliperError::EnvironmentSignalMalformed { details },
        ),
{
}

/// The controller's reports follow the submission: a run without a signal
/// that succeeds answers with as many reports as scenarios were submitted,
/// and the report at each position is that of the scenario submitted at that
/// position, tagged with that position.
pub proof fn lemma_controller_reports_follow_submission<'a, F, S>(
    runner: Runner,
    settings: Vec<&'a Scenario<F>>,
    spawn: S,
    reports: Vec<Report<'a, F>>,
) where
    F: Fn(),
    S: FnOnce(&Vec<&'a Scenario<F>>, &ScenarioConfig, usize) -> Result<
        Vec<CallgrindResultFilename>,
        CalliperError,
    >,

    requires
        run_answer(runner, RoleSignal::NoRoleAssigned, settings, spawn, Ok(reports)),
    ensures
        reports.len() == settings.len(),
        forall|i: int|
            0 <= i < settings.len() ==> {
                &&& (#[trigger] reports[i])@.scenario == settings[i]@
                &&& reports[i]@.run_idx == i
            },
{
}

/// Reports come from the controller only: a run that answers with at least
/// one report was a run without a signal.
pub proof fn lemma_reports_come_from_the_controller<'a, F, S>(
    runner: Runner,
    signal: RoleSignal,
    settings: Vec<&'a Scenario<F>>,
    spawn: S,
    reports: Vec<Report<'a, F>>,
) where
    F: Fn(),
    S: FnOnce(&Vec<&'a Scenario<F>>, &ScenarioConfig, usize) -> Result<
        Vec<CallgrindResultFilename>,
        CalliperError,
    >,

    requires
        run_answer(runner, signal, settings, spawn, Ok(reports)),
        reports.len() > 0,
    ensures
        signal is NoRoleAssigned,
{
}

/// Precedence between the two levels: of the settings under which a scenario
/// is profiled, each one that the scenario sets has the scenario's value, and
/// each one that it leaves out has the value of the runner's defaults.
pub proof fn lemma_scenario_settings_win<F: Fn()>(runner: Runner, scenario: Scenario<F>)
    ensures
        ({
            let own = scenario@.config@;
            let defaults = runner@.defaults@;
            let used = effective(runner, scenario);
            &&& own.branch_sim is Some ==> used.branch_sim == own.branch_sim
            &&& own.branch_sim is None ==> used.branch_sim == defaults.branch_sim
            &&& own.cache_sim is Some ==> used.cache_sim == own.cache_sim
            &&& own.cache_sim is None ==> used.cache_sim == defaults.cache_sim
            &&& own.collect_atstart is Some ==> used.collect_atstart == own.collect_atstart
            &&& own.collect_atstart is None ==> used.collect_atstart == defaults.collect_atstart
            &&& own.output is Some ==> used.output == own.output
            &&& own.output is None ==> used.output == defaults.output
        }),
{
    lemma_overrides_take_precedence(runner@.defaults@, scenario@.config@);
}

} // verus!
