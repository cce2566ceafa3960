//! A scenario: one benchmark target with the configuration it overrides.

use vstd::prelude::*;
use crate::config::{ScenarioConfig, ScenarioConfigView};

verus! {

/// One unit of work: a callable to measure and the settings it overrides.
///
/// A scenario has no name. What tells two scenarios of one run apart is their
/// position in the submitted sequence, and that position is all that the
/// controller and a worker share.
#[derive(Debug, Hash, PartialEq, Eq, PartialOrd)]
pub struct Scenario<F: Fn()> {
    pub(crate) config: ScenarioConfig,
    pub(crate) func: F,
}

/// What a [`Scenario`] holds.
pub struct ScenarioView<F> {
    /// The settings that this scenario overrides.
    pub config: ScenarioConfig,
    /// The benchmark target.
    pub func: F,
}

impl<F: Fn()> View for Scenario<F> {
    type V = ScenarioView<F>;

    closed spec fn view(&self) -> ScenarioView<F> {
        ScenarioView { config: self.config, func: self.func }
    }
}

impl<F: Fn() + Copy> Clone for Scenario<F> {
    /// A second scenario with the same target and the same settings.
    fn clone(&self) -> (scenario: Self)
        ensures
            scenario@ == self@,
    {
        proof {
            use_type_invariant(self);
        }
        Scenario { config: self.config.clone(), func: self.func }
    }
}

impl<F: Fn()> Scenario<F> {
    /// The target of a scenario can be called as it stands, by anyone who
    /// holds the scenario.
    #[verifier::type_invariant]
    spec fn callable(self) -> bool {
        call_requires(self.func, ())
    }

    /// Create a new scenario to be run by a `Runner`. It overrides nothing.
    pub fn new(func: F) -> (scenario: Self)
        requires
            call_requires(func, ()),
        ensures
            scenario@.config@ == ScenarioConfigView::unset(),
            scenario@.func == func,
    {
        Scenario { config: ScenarioConfig::default(), func }
    }

    /// Override current configuration. The configuration is replaced as a
    /// whole; nothing of the earlier one is kept.
    pub fn config(self, config: ScenarioConfig) -> (scenario: Self)
        ensures
            scenario@ == (ScenarioView { config, func: self@.func }),
    {
        proof {
            use_type_invariant(&self);
        }
        Scenario { config, func: self.func }
    }

    /// The settings that this scenario overrides.
    pub fn get_config(&self) -> (config: &ScenarioConfig)
        ensures
            config == self@.config,
    {
        &self.config
    }

    /// Runs the benchmark target once, in this process.
    pub fn invoke(&self)
        ensures
            call_ensures(self@.func, (), ()),
    {
        proof {
            use_type_invariant(self);
        }
        (self.func)()
    }
}

} // verus!
