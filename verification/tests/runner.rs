use interoperability_tests_sv2::app_type::AppType;
use interoperability_tests_sv2::runner::{suite_for, SuiteRun, Tally};
use interoperability_tests_sv2::scenarios::{all, solo_pool, Scenario, ScenarioError, ScenarioReport};

const SOLO_POOL_IDS: [&str; 7] = [
    "C-SCS-1 framed-setup-connection-response",
    "C-SCS-2 used-version-within-range",
    "C-SC-7 unsupported-protocol-rejected",
    "M-OSMCS-1 request-id-echo",
    "M-OEMCS-1 request-id-echo",
    "M-OEMCS-3 extranonce-size-at-least-min",
    "M-NMJ-1 first-message-after-open-is-job",
];

#[test]
fn solo_pool_suite_lists_every_scenario_once() {
    let ids: Vec<&str> = solo_pool().iter().map(|s| s.id()).collect();
    assert_eq!(ids, SOLO_POOL_IDS);
    let all_ids: Vec<&str> = all().iter().map(|s| s.id()).collect();
    assert_eq!(all_ids, ids);
    for (i, a) in ids.iter().enumerate() {
        for b in &ids[i + 1..] {
            assert_ne!(a, b);
        }
    }
}

#[test]
fn only_solo_pools_have_a_suite_yet() {
    assert_eq!(suite_for(AppType::SoloPool), solo_pool());
    assert!(suite_for(AppType::Pool).is_empty());
    assert!(suite_for(AppType::JobDeclaratorServer).is_empty());
    assert!(suite_for(AppType::TemplateProvider).is_empty());
}

#[test]
fn dead_endpoint_fails_every_scenario_of_the_suite() {
    let run = SuiteRun::new(suite_for(AppType::SoloPool));
    let reports = run.preflight_failed(&ScenarioError("endpoint unreachable: Connection refused".to_string()));
    assert!(!reports.is_empty(), "no scenarios ran");
    assert_eq!(reports.len(), SOLO_POOL_IDS.len());
    for (report, id) in reports.iter().zip(SOLO_POOL_IDS) {
        assert_eq!(report.id, id);
        assert_eq!(
            report.result.as_ref().unwrap_err().to_string(),
            "endpoint unreachable: Connection refused",
            "scenario {} must fail against a dead endpoint",
            report.id
        );
    }
}

#[test]
fn a_run_reports_each_scenario_in_order() {
    let mut run = SuiteRun::new(vec![Scenario::UsedVersionWithinRange, Scenario::FirstMessageAfterOpenIsJob]);
    assert_eq!(run.next_scenario(), Some(Scenario::UsedVersionWithinRange));
    run.record(Ok(Ok(Some("[2,2] accepted; [3,3] rejected".to_string()))));
    assert_eq!(run.next_scenario(), Some(Scenario::FirstMessageAfterOpenIsJob));
    run.record(Err("task 3 panicked".to_string()));
    assert_eq!(run.next_scenario(), None);
    // nothing left to record
    run.record(Ok(Ok(None)));
    let reports = run.finish();
    assert_eq!(reports.len(), 2);
    assert_eq!(reports[0].id, "C-SCS-2 used-version-within-range");
    assert_eq!(reports[0].result.as_ref().unwrap().as_deref(), Some("[2,2] accepted; [3,3] rejected"));
    assert_eq!(reports[1].id, "M-NMJ-1 first-message-after-open-is-job");
    assert_eq!(reports[1].result.as_ref().unwrap_err().to_string(), "task 3 panicked");
}

fn report(id: &'static str, ok: bool) -> ScenarioReport {
    ScenarioReport { id, result: if ok { Ok(None) } else { Err(ScenarioError("no".to_string())) } }
}

#[test]
fn tally_counts_and_summarises() {
    let mut tally = Tally::new();
    tally.count(&vec![report("a", true), report("b", true), report("c", false)]);
    tally.count(&vec![report("d", true)]);
    assert_eq!((tally.passed, tally.failed), (3, 1));
    assert!(!tally.all_passed());
    assert_eq!(tally.exit_code(), 1);
    assert_eq!(tally.summary(2), "3/4 scenarios passed, 1 failed across 2 target(s)");

    let mut clean = Tally::new();
    clean.count(&vec![report("a", true), report("b", true)]);
    assert!(clean.all_passed());
    assert_eq!(clean.exit_code(), 0);
    assert_eq!(clean.summary(1), "2/2 scenarios passed across 1 target(s)");
}
