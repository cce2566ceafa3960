//! Configuration of one profiled run, and how an override is laid over defaults.
//!
//! Every setting is optional. A setting that is absent says "no opinion": when
//! a scenario's configuration is laid over the runner's defaults, the
//! scenario's settings win wherever they are present and the defaults show
//! through wherever they are absent. Settings are merged one by one; no
//! setting is itself taken apart.

use vstd::prelude::*;

verus! {

/// Settings of the profiler for one scenario.
#[derive(Debug, PartialEq, Eq, Hash, PartialOrd)]
pub struct ScenarioConfig {
    branch_sim: Option<bool>,
    cache_sim: Option<bool>,
    collect_atstart: Option<bool>,
    output: Option<String>,
}

/// The mathematical content of a [`ScenarioConfig`].
pub struct ScenarioConfigView {
    /// Whether the profiler simulates branch prediction.
    pub branch_sim: Option<bool>,
    /// Whether the profiler simulates the cache hierarchy.
    pub cache_sim: Option<bool>,
    /// Whether counters are collected from the start of the process.
    pub collect_atstart: Option<bool>,
    /// The name under which the profiler writes its raw output.
    pub output: Option<Seq<char>>,
}

/// One setting laid over another: the overriding one where it is present.
pub open spec fn prefer<T>(overriding: Option<T>, base: Option<T>) -> Option<T> {
    if overriding is Some {
        overriding
    } else {
        base
    }
}

impl ScenarioConfigView {
    /// The configuration with no setting present.
    pub open spec fn unset() -> Self {
        ScenarioConfigView {
            branch_sim: None,
            cache_sim: None,
            collect_atstart: None,
            output: None,
        }
    }

    /// `self` with `overrides` laid over it, setting by setting.
    pub open spec fn overwrite(self, overrides: Self) -> Self {
        ScenarioConfigView {
            branch_sim: prefer(overrides.branch_sim, self.branch_sim),
            cache_sim: prefer(overrides.cache_sim, self.cache_sim),
            collect_atstart: prefer(overrides.collect_atstart, self.collect_atstart),
            output: prefer(overrides.output, self.output),
        }
    }
}

impl View for ScenarioConfig {
    type V = ScenarioConfigView;

    closed spec fn view(&self) -> ScenarioConfigView {
        ScenarioConfigView {
            branch_sim: self.branch_sim,
            cache_sim: self.cache_sim,
            collect_atstart: self.collect_atstart,
            output: match self.output {
                Some(name) => Some(name@),
                None => None,
            },
        }
    }
}

impl Clone for ScenarioConfig {
    /// A second configuration with the same settings.
    fn clone(&self) -> (config: Self)
        ensures
            config == *self,
    {
        ScenarioConfig {
            branch_sim: self.branch_sim,
            cache_sim: self.cache_sim,
            collect_atstart: self.collect_atstart,
            output: match &self.output {
                Some(name) => Some(name.clone()),
                None => None,
            },
        }
    }
}

impl Default for ScenarioConfig {
    /// The configuration with no setting present.
    fn default() -> (config: Self)
        ensures
            config@ == ScenarioConfigView::unset(),
    {
        ScenarioConfig { branch_sim: None, cache_sim: None, collect_atstart: None, output: None }
    }
}

impl ScenarioConfig {
    /// Sets whether the profiler simulates branch prediction.
    pub fn branch_sim(self, enabled: bool) -> (config: Self)
        ensures
            config@ == (ScenarioConfigView { branch_sim: Some(enabled), ..self@ }),
    {
        ScenarioConfig { branch_sim: Some(enabled), ..self }
    }

    /// Sets whether the profiler simulates the cache hierarchy.
    pub fn cache_sim(self, enabled: bool) -> (config: Self)
        ensures
            config@ == (ScenarioConfigView { cache_sim: Some(enabled), ..self@ }),
    {
        ScenarioConfig { cache_sim: Some(enabled), ..self }
    }

    /// Sets whether counters are collected from the start of the process.
    pub fn collect_atstart(self, enabled: bool) -> (config: Self)
        ensures
            config@ == (ScenarioConfigView { collect_atstart: Some(enabled), ..self@ }),
    {
        ScenarioConfig { collect_atstart: Some(enabled), ..self }
    }

    /// Sets the name under which the profiler writes its raw output.
    pub fn output(self, name: String) -> (config: Self)
        ensures
            config@ == (ScenarioConfigView { output: Some(name@), ..self@ }),
    {
        ScenarioConfig { output: Some(name), ..self }
    }

    /// Whether the profiler simulates branch prediction, if that is set.
    pub fn get_branch_sim(&self) -> (setting: Option<bool>)
        ensures
            setting == self@.branch_sim,
    {
        self.branch_sim
    }

    /// Whether the profiler simulates the cache hierarchy, if that is set.
    pub fn get_cache_sim(&self) -> (setting: Option<bool>)
        ensures
            setting == self@.cache_sim,
    {
        self.cache_sim
    }

    /// Whether counters are collected from the start of the process, if that
    /// is set.
    pub fn get_collect_atstart(&self) -> (setting: Option<bool>)
        ensures
            setting == self@.collect_atstart,
    {
        self.collect_atstart
    }

    /// The name under which the profiler writes its raw output, if one is set.
    pub fn get_output(&self) -> (setting: Option<&String>)
        ensures
            setting is Some <==> self@.output is Some,
            setting matches Some(name) ==> self@.output == Some(name@),
    {
        self.output.as_ref()
    }

    /// `self` with `overrides` laid over it: each setting is taken from
    /// `overrides` where it is present there, and from `self` otherwise.
    pub fn overwrite(&self, overrides: &ScenarioConfig) -> (merged: ScenarioConfig)
        ensures
            merged@ == self@.overwrite(overrides@),
    {
        let output = match &overrides.output {
            Some(name) => Some(name.clone()),
            None => match &self.output {
                Some(name) => Some(name.clone()),
                None => None,
            },
        };
        ScenarioConfig {
            branch_sim: if overrides.branch_sim.is_some() {
                overrides.branch_sim
            } else {
                self.branch_sim
            },
            cache_sim: if overrides.cache_sim.is_some() {
                overrides.cache_sim
            } else {
                self.cache_sim
            },
            collect_atstart: if overrides.collect_atstart.is_some() {
                overrides.collect_atstart
            } else {
                self.collect_atstart
            },
            output,
        }
    }
}

/// Precedence: in a configuration laid over defaults, a setting that the
/// overriding configuration holds has the overriding value, and a setting that
/// it leaves out has the value of the defaults, absent where they leave it out
/// too.
pub proof fn lemma_overrides_take_precedence(
    defaults: ScenarioConfigView,
    overrides: ScenarioConfigView,
)
    ensures
        ({
            let merged = defaults.overwrite(overrides);
            &&& overrides.branch_sim is Some ==> merged.branch_sim == overrides.branch_sim
            &&& overrides.branch_sim is None ==> merged.branch_sim == defaults.branch_sim
            &&& overrides.cache_sim is Some ==> merged.cache_sim == overrides.cache_sim
            &&& overrides.cache_sim is None ==> merged.cache_sim == defaults.cache_sim
            &&& overrides.collect_atstart is Some ==> merged.collect_atstart
                == overrides.collect_atstart
            &&& overrides.collect_atstart is None ==> merged.collect_atstart
                == defaults.collect_atstart
            &&& overrides.output is Some ==> merged.output == overrides.output
            &&& overrides.output is None ==> merged.output == defaults.output
        }),
{
}

/// A configuration that sets nothing changes nothing when it is laid over
/// defaults, and defaults that set nothing let the overriding configuration
/// through as it is.
pub proof fn lemma_unset_is_neutral(config: ScenarioConfigView)
    ensures
        config.overwrite(ScenarioConfigView::unset()) == config,
        ScenarioConfigView::unset().overwrite(config) == config,
{
}

} // verus!
