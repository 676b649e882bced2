//! Running a suite against an endpoint, and summarising runs.

use vstd::prelude::*;

use crate::app_type::AppType;
use crate::scenarios::{
    result_view, scenario_id, solo_pool, solo_pool_spec, Scenario, ScenarioError, ScenarioReport,
    ScenarioResult,
};
use crate::text::{decimal, push_decimal};

verus! {

/// The suite applicable to `app`.
pub open spec fn suite_for_spec(app: AppType) -> Seq<Scenario> {
    match app {
        AppType::SoloPool => solo_pool_spec(),
        _ => Seq::empty(),
    }
}

/// The scenarios that run against an endpoint of type `app_type`.
pub fn suite_for(app_type: AppType) -> (v: Vec<Scenario>)
    ensures
        v@ == suite_for_spec(app_type),
{
    match app_type {
        AppType::SoloPool => solo_pool(),
        AppType::Pool => Vec::new(),  // no non-solo Pool suite yet
        AppType::JobDeclaratorServer => Vec::new(),  // no JDS suite until JDP scenarios land
        AppType::TemplateProvider => Vec::new(),  // no TP suite until a TP test exists
    }
}

/// A report with its strings taken by their characters.
pub type ReportView = (Seq<char>, Result<Option<Seq<char>>, Seq<char>>);

/// A report with its strings taken by their characters.
pub open spec fn report_view(r: ScenarioReport) -> ReportView {
    (r.id@, result_view(r.result))
}

/// The views of a list of reports.
pub open spec fn reports_view(rs: Seq<ScenarioReport>) -> Seq<ReportView> {
    rs.map_values(|r: ScenarioReport| report_view(r))
}

/// What a scenario run came to: its result, or why its task died (a
/// panic, a cancellation).
pub open spec fn outcome_view(outcome: Result<ScenarioResult, String>) -> OutcomeView {
    match outcome {
        Ok(r) => result_view(r),
        Err(reason) => Err(reason@),
    }
}

/// The reports of a run whose endpoint failed its preflight: every selected
/// scenario fails with the preflight's error.
pub open spec fn preflight_failure_reports(selected: Seq<Scenario>, error: Seq<char>) -> Seq<ReportView> {
    Seq::new(selected.len(), |i: int| (scenario_id(selected[i]), Err(error)))
}

/// What a scenario run came to, with its strings taken by their
/// characters.
pub type OutcomeView = Result<Option<Seq<char>>, Seq<char>>;

/// The reports of a run of `selected` that had `reports` so far, once
/// `outcome` is recorded: the next scenario gets its report; a run with no
/// scenario left is unchanged.
pub open spec fn after_record(selected: Seq<Scenario>, reports: Seq<ReportView>, outcome: OutcomeView) -> Seq<
    ReportView,
> {
    if reports.len() < selected.len() {
        reports.push((scenario_id(selected[reports.len() as int]), outcome))
    } else {
        reports
    }
}

/// The reports of a fresh run of `selected` once `outcomes` are recorded,
/// one after the other.
pub open spec fn driven_reports(selected: Seq<Scenario>, outcomes: Seq<OutcomeView>) -> Seq<ReportView>
    decreases outcomes.len(),
{
    if outcomes.len() == 0 {
        Seq::empty()
    } else {
        after_record(selected, driven_reports(selected, outcomes.drop_last()), outcomes.last())
    }
}

/// A run driven to its end collects every outcome: recording one outcome
/// per selected scenario, failures included, gives one report per
/// scenario, in the suite's order, each with that scenario's outcome.
pub proof fn lemma_driven_run_reports_every_scenario(selected: Seq<Scenario>, outcomes: Seq<OutcomeView>)
    requires
        outcomes.len() <= selected.len(),
    ensures
        driven_reports(selected, outcomes) == Seq::new(
            outcomes.len(),
            |i: int| (scenario_id(selected[i]), outcomes[i]),
        ),
    decreases outcomes.len(),
{
    if outcomes.len() > 0 {
        lemma_driven_run_reports_every_scenario(selected, outcomes.drop_last());
        assert(driven_reports(selected, outcomes) =~= Seq::new(
            outcomes.len(),
            |i: int| (scenario_id(selected[i]), outcomes[i]),
        ));
    }
}

/// The Solo Pool suite run for a Solo Pool endpoint is the Solo Pool
/// registry, and other app types have no suite yet.
pub proof fn lemma_suite_for_solo_pool(app: AppType)
    ensures
        app == AppType::SoloPool ==> suite_for_spec(app) == solo_pool_spec(),
        app != AppType::SoloPool ==> suite_for_spec(app).len() == 0,
{
}

/// A run of a suite against one endpoint.
///
/// Each scenario runs on its own, on a fresh connection; whatever its task
/// came to becomes its report, a panic included, so that one scenario
/// cannot end the run.
#[derive(Debug)]
pub struct SuiteRun {
    selected: Vec<Scenario>,
    reports: Vec<ScenarioReport>,
}

impl SuiteRun {
    /// The scenarios of the run, in order.
    pub closed spec fn selected(&self) -> Seq<Scenario> {
        self.selected@
    }

    /// The reports so far, one per scenario run, in order.
    pub closed spec fn reports(&self) -> Seq<ReportView> {
        reports_view(self.reports@)
    }

    /// The run's reports are those of its first scenarios, in order.
    pub open spec fn well_formed(&self) -> bool {
        &&& self.reports().len() <= self.selected().len()
        &&& forall|i: int|
            0 <= i < self.reports().len() ==> (#[trigger] self.reports()[i]).0 == scenario_id(self.selected()[i])
    }

    /// A run of `selected` that has not started.
    pub fn new(selected: Vec<Scenario>) -> (run: SuiteRun)
        ensures
            run.selected() == selected@,
            run.reports() == Seq::<ReportView>::empty(),
            run.well_formed(),
    {
        let run = SuiteRun { selected, reports: Vec::new() };
        assert(run.reports() =~= Seq::<ReportView>::empty());
        run
    }

    /// The reports of the run when the endpoint failed its preflight: one
    /// failed report per selected scenario, with the preflight's error.
    pub fn preflight_failed(self, error: &ScenarioError) -> (reports: Vec<ScenarioReport>)
        ensures
            reports_view(reports@) == preflight_failure_reports(self.selected(), error@),
    {
        let mut reports: Vec<ScenarioReport> = Vec::new();
        let n = self.selected.len();
        let mut i: usize = 0;
        while i < n
            invariant
                n == self.selected@.len(),
                0 <= i <= n,
                reports_view(reports@) =~= preflight_failure_reports(self.selected@.take(i as int), error@),
            decreases n - i,
        {
            let scenario = self.selected[i];
            let ghost before = reports@;
            reports.push(ScenarioReport { id: scenario.id(), result: Err(error.clone_error()) });
            assert(reports_view(reports@) =~= reports_view(before).push((scenario_id(scenario), Err(error@))));
            assert(self.selected@.take(i as int + 1) =~= self.selected@.take(i as int).push(scenario));
            i = i + 1;
        }
        assert(self.selected@.take(n as int) =~= self.selected@);
        reports
    }

    /// The scenario to run next, if any is left.
    pub fn next_scenario(&self) -> (s: Option<Scenario>)
        ensures
            s == (if self.reports().len() < self.selected().len() {
                Some(self.selected()[self.reports().len() as int])
            } else {
                None
            }),
    {
        if self.reports.len() < self.selected.len() {
            Some(self.selected[self.reports.len()])
        } else {
            None
        }
    }

    /// Records what the scenario that ran last came to; a run with no
    /// scenario left is not changed.
    pub fn record(&mut self, outcome: Result<ScenarioResult, String>)
        ensures
            final(self).selected() == old(self).selected(),
            final(self).reports() == after_record(old(self).selected(), old(self).reports(), outcome_view(outcome)),
            old(self).well_formed() ==> final(self).well_formed(),
    {
        if self.reports.len() < self.selected.len() {
            let scenario = self.selected[self.reports.len()];
            let result: ScenarioResult = match outcome {
                Ok(r) => r,
                Err(reason) => Err(ScenarioError(reason)),
            };
            let ghost before = self.reports@;
            self.reports.push(ScenarioReport { id: scenario.id(), result });
            assert(reports_view(self.reports@) =~= reports_view(before).push(report_view(self.reports@.last())));
        }
    }

    /// The reports of the run.
    pub fn finish(self) -> (reports: Vec<ScenarioReport>)
        ensures
            reports_view(reports@) == self.reports(),
    {
        self.reports
    }
}

/// How many of `reports` passed.
pub open spec fn passed_count(reports: Seq<ScenarioReport>) -> nat
    decreases reports.len(),
{
    if reports.len() == 0 {
        0
    } else {
        passed_count(reports.drop_last()) + (if reports.last().result is Ok { 1nat } else { 0nat })
    }
}

/// The counts of passed and failed scenarios across a run of several
/// targets.
#[derive(Debug)]
pub struct Tally {
    pub passed: u64,
    pub failed: u64,
}

/// The summary line after the mark: how many scenarios passed, how many
/// failed if any did, across how many targets.
pub open spec fn summary_text(passed: nat, failed: nat, targets: nat) -> Seq<char> {
    if failed == 0 {
        decimal(passed) + "/"@ + decimal(passed + failed) + " scenarios passed across "@ + decimal(targets)
            + " target(s)"@
    } else {
        decimal(passed) + "/"@ + decimal(passed + failed) + " scenarios passed, "@ + decimal(failed)
            + " failed across "@ + decimal(targets) + " target(s)"@
    }
}

impl Tally {
    /// Nothing counted yet.
    pub fn new() -> (t: Tally)
        ensures
            t.passed == 0,
            t.failed == 0,
    {
        Tally { passed: 0, failed: 0 }
    }

    /// Counts the reports of one target.
    pub fn count(&mut self, reports: &Vec<ScenarioReport>)
        requires
            old(self).passed + old(self).failed + reports@.len() <= u64::MAX,
        ensures
            final(self).passed == old(self).passed + passed_count(reports@),
            final(self).failed == old(self).failed + (reports@.len() - passed_count(reports@)),
            final(self).passed + final(self).failed == old(self).passed + old(self).failed + reports@.len(),
    {
        let n = reports.len();
        let mut i: usize = 0;
        while i < n
            invariant
                n == reports@.len(),
                0 <= i <= n,
                old(self).passed + old(self).failed + n <= u64::MAX,
                passed_count(reports@.take(i as int)) <= i,
                self.passed == old(self).passed + passed_count(reports@.take(i as int)),
                self.failed == old(self).failed + (i - passed_count(reports@.take(i as int))),
            decreases n - i,
        {
            assert(reports@.take(i as int + 1).drop_last() =~= reports@.take(i as int));
            match &reports[i].result {
                Ok(_) => self.passed = self.passed + 1,
                Err(_) => self.failed = self.failed + 1,
            }
            i = i + 1;
        }
        assert(reports@.take(n as int) =~= reports@);
    }

    /// Every counted scenario passed.
    pub fn all_passed(&self) -> (b: bool)
        ensures
            b == (self.failed == 0),
    {
        self.failed == 0
    }

    /// The process exit status: 0 when all scenarios passed, 1 otherwise.
    pub fn exit_code(&self) -> (code: i32)
        ensures
            code == (if self.failed == 0 { 0i32 } else { 1i32 }),
    {
        if self.failed == 0 {
            0
        } else {
            1
        }
    }

    /// The summary of a run across `targets` targets.
    pub fn summary(&self, targets: usize) -> (s: String)
        requires
            self.passed + self.failed <= u64::MAX,
        ensures
            s@ == summary_text(self.passed as nat, self.failed as nat, targets as nat),
    {
        let total = self.passed + self.failed;
        let mut s = String::new();
        push_decimal(&mut s, self.passed);
        s.append("/");
        push_decimal(&mut s, total);
        if self.failed == 0 {
            s.append(" scenarios passed across ");
        } else {
            s.append(" scenarios passed, ");
            push_decimal(&mut s, self.failed);
            s.append(" failed across ");
        }
        push_decimal(&mut s, targets as u64);
        s.append(" target(s)");
        s
    }
}

} // verus!

verus! {

/// Recording keeps what a scenario came to: the next scenario gets one
/// report, the earlier reports stay; a scenario that failed is reported
/// failed with its reason, one that passed is reported passed with its
/// detail (or none), and a task that died is reported failed with why.
pub proof fn lemma_record_keeps_scenario_result(
    selected: Seq<Scenario>,
    reports: Seq<ReportView>,
    outcome: Result<ScenarioResult, String>,
)
    requires
        reports.len() < selected.len(),
    ensures
        after_record(selected, reports, outcome_view(outcome)).len() == reports.len() + 1,
        after_record(selected, reports, outcome_view(outcome)).subrange(0, reports.len() as int) == reports,
        after_record(selected, reports, outcome_view(outcome)).last().0 == scenario_id(
            selected[reports.len() as int],
        ),
        outcome matches Ok(Err(e)) ==> after_record(selected, reports, outcome_view(outcome)).last().1
            == Err::<Option<Seq<char>>, Seq<char>>(e@),
        outcome matches Ok(Ok(Some(d))) ==> after_record(selected, reports, outcome_view(outcome)).last().1
            == Ok::<Option<Seq<char>>, Seq<char>>(Some(d@)),
        outcome matches Ok(Ok(None)) ==> after_record(selected, reports, outcome_view(outcome)).last().1
            == Ok::<Option<Seq<char>>, Seq<char>>(None),
        outcome matches Err(reason) ==> after_record(selected, reports, outcome_view(outcome)).last().1
            == Err::<Option<Seq<char>>, Seq<char>>(reason@),
{
    assert(after_record(selected, reports, outcome_view(outcome)).subrange(0, reports.len() as int) =~= reports);
}

/// Recording on a run with no scenario left changes nothing.
pub proof fn lemma_record_after_the_end_changes_nothing(
    selected: Seq<Scenario>,
    reports: Seq<ReportView>,
    outcome: OutcomeView,
)
    requires
        reports.len() >= selected.len(),
    ensures
        after_record(selected, reports, outcome) == reports,
{
}

/// A run whose endpoint failed its preflight reports every selected
/// scenario once, in order, as failed with the preflight's error.
pub proof fn lemma_preflight_failure_fails_every_scenario(selected: Seq<Scenario>, error: Seq<char>)
    ensures
        preflight_failure_reports(selected, error).len() == selected.len(),
        forall|i: int|
            0 <= i < selected.len() ==> (#[trigger] preflight_failure_reports(selected, error)[i]).0
                == scenario_id(selected[i]) && preflight_failure_reports(selected, error)[i].1
                == Err::<Option<Seq<char>>, Seq<char>>(error),
{
}

/// The passed count counts exactly the reports whose result is `Ok`,
/// whatever their detail: it adds up over concatenation, is the length of
/// a list of passes and zero for a list of failures.
pub proof fn lemma_passed_count_counts_passes(a: Seq<ScenarioReport>, b: Seq<ScenarioReport>)
    ensures
        passed_count(a + b) == passed_count(a) + passed_count(b),
        passed_count(a) <= a.len(),
        (forall|i: int| 0 <= i < a.len() ==> (#[trigger] a[i]).result is Ok) ==> passed_count(a) == a.len(),
        (forall|i: int| 0 <= i < a.len() ==> (#[trigger] a[i]).result is Err) ==> passed_count(a) == 0,
    decreases a.len() + b.len(),
{
    if b.len() > 0 {
        lemma_passed_count_counts_passes(a, b.drop_last());
        assert((a + b).drop_last() =~= a + b.drop_last());
        assert((a + b).last() == b.last());
    } else {
        assert(a + b =~= a);
        if a.len() > 0 {
            lemma_passed_count_counts_passes(a.drop_last(), b);
            assert forall|i: int| 0 <= i < a.drop_last().len() implies (#[trigger] a.drop_last()[i]).result
                == a[i].result by {}
        }
    }
}

/// A single report counts as passed exactly when its result is `Ok`.
pub proof fn lemma_one_report_passes_when_ok(r: ScenarioReport)
    ensures
        passed_count(seq![r]) == (if r.result is Ok { 1nat } else { 0nat }),
        r.result matches Ok(Some(_)) ==> passed_count(seq![r]) == 1,
{
    let s = seq![r];
    assert(s.drop_last() =~= Seq::<ScenarioReport>::empty());
    assert(passed_count(s.drop_last()) == 0);
    assert(s.last() == r);
}

} // verus!
