//! Reports: what binds a finished run back to its scenario.

use vstd::prelude::*;
use crate::scenario::{Scenario, ScenarioView};

verus! {

/// Where the profiler left the raw output of one run. The spawning service
/// names it; to this library it is an identifier that is carried, never read.
#[derive(Debug, PartialEq, Eq)]
pub struct CallgrindResultFilename {
    pub path: String,
}

/// The result of one scenario's run: the scenario, its position in the
/// submitted sequence, and the place of the profiler's output.
///
/// A report records the place and nothing of what is there. Whether the
/// output exists and can be read shows when it is read, not before.
#[derive(Debug, PartialEq, Eq)]
pub struct Report<'a, F: Fn()> {
    pub(crate) run: &'a Scenario<F>,
    pub(crate) run_idx: usize,
    pub(crate) results: CallgrindResultFilename,
}

/// What a [`Report`] holds.
pub struct ReportView<F> {
    /// The scenario that was run.
    pub scenario: ScenarioView<F>,
    /// Its position in the submitted sequence.
    pub run_idx: usize,
    /// The place of the profiler's raw output.
    pub results: CallgrindResultFilename,
}

impl<'a, F: Fn()> View for Report<'a, F> {
    type V = ReportView<F>;

    closed spec fn view(&self) -> ReportView<F> {
        ReportView { scenario: self.run@, run_idx: self.run_idx, results: self.results }
    }
}

impl Clone for CallgrindResultFilename {
    /// The same place once more.
    fn clone(&self) -> (place: Self)
        ensures
            place == *self,
    {
        CallgrindResultFilename { path: self.path.clone() }
    }
}

impl<'a, F: Fn()> Clone for Report<'a, F> {
    /// A second report of the same run. The scenario is shared, not copied.
    fn clone(&self) -> (report: Self)
        ensures
            report@ == self@,
    {
        Report { run: self.run, run_idx: self.run_idx, results: self.results.clone() }
    }
}

impl<'a, F: Fn()> Report<'a, F> {
    /// The report of the run of `run`, submitted at position `run_idx`, whose
    /// output is at `results`.
    pub(crate) fn new(
        run: &'a Scenario<F>,
        run_idx: usize,
        results: CallgrindResultFilename,
    ) -> (report: Self)
        ensures
            report@ == (ReportView { scenario: run@, run_idx, results }),
    {
        Report { run, run_idx, results }
    }

    /// Whether `contents` is an answer of `read` at the report's place.
    pub open spec fn read_by<R, E>(&self, read: R, contents: Result<String, E>) -> bool where
        R: FnOnce(&CallgrindResultFilename) -> Result<String, E>,
    {
        call_ensures(read, (&self@.results,), contents)
    }

    /// The raw output of the run, as `read` finds it at the report's place.
    ///
    /// The report hands `read` its place and passes on what `read` answers,
    /// a failure as much as a text: an output that is missing or unreadable is
    /// never turned into an empty one. Nothing is kept between calls; each
    /// call reads again.
    pub fn raw<R, E>(&self, read: R) -> (contents: Result<String, E>) where
        R: FnOnce(&CallgrindResultFilename) -> Result<String, E>,

        requires
            call_requires(read, (&self@.results,)),
        ensures
            self.read_by(read, contents),
    {
        read(&self.results)
    }

    /// The output of the run as `parser` reads it at the report's place.
    ///
    /// The report hands `parser` its place and passes on what `parser`
    /// answers; a failure of the parser comes back as the parser states it.
    pub fn parse<P, T>(&self, parser: P) -> (parsed: T) where
        P: FnOnce(&CallgrindResultFilename) -> T,

        requires
            call_requires(parser, (&self@.results,)),
        ensures
            call_ensures(parser, (&self@.results,), parsed),
    {
        parser(&self.results)
    }

    /// The scenario that was run.
    pub fn scenario(&self) -> (scenario: &'a Scenario<F>)
        ensures
            scenario@ == self@.scenario,
    {
        self.run
    }

    /// The position of the scenario in the submitted sequence.
    pub fn run_idx(&self) -> (run_idx: usize)
        ensures
            run_idx == self@.run_idx,
    {
        self.run_idx
    }

    /// The place of the profiler's raw output.
    pub fn results(&self) -> (results: &CallgrindResultFilename)
        ensures
            results == self@.results,
    {
        &self.results
    }
}

/// Reading twice gives the same: where `read` has one answer at the place of
/// `report`, as it has while the output there does not change, any two
/// answers of [`Report::raw`] with `read` are equal.
pub proof fn lemma_raw_repeats<'a, F: Fn(), R, E>(
    report: Report<'a, F>,
    read: R,
    first: Result<String, E>,
    second: Result<String, E>,
) where
    R: FnOnce(&CallgrindResultFilename) -> Result<String, E>,

    requires
        forall|one: Result<String, E>, other: Result<String, E>|
            #![trigger report.read_by(read, one), report.read_by(read, other)]
            report.read_by(read, one) && report.read_by(read, other) ==> one == other,
        report.read_by(read, first),
        report.read_by(read, second),
    ensures
        first == second,
{
}

} // verus!
