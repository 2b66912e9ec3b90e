use jenkins_monitor::cycle::{Coordinator, CycleCounter, should_retry, CONCURRENCY_LIMIT};
use jenkins_monitor::filter::{standard_ruleset, JobFilterRuleset};
use jenkins_monitor::jobs::{BuildStatus, Classification, Job};

fn job(name: &str) -> Job {
    Job {
        name: name.to_string(),
        disabled: false,
        in_queue: false,
        url: format!("http://ci.example/job/{}", name),
    }
}

fn failing() -> BuildStatus {
    BuildStatus { result: Some("FAILURE".to_string()), in_progress: false }
}

fn running() -> BuildStatus {
    BuildStatus { result: None, in_progress: true }
}

fn quiet() -> BuildStatus {
    BuildStatus { result: Some("SUCCESS".to_string()), in_progress: false }
}

#[test]
fn counter_resets_and_counts_up() {
    let mut c = CycleCounter::new();
    assert_eq!(c.take(), 1);
    assert_eq!(c.take(), 2);
    assert_eq!(c.take(), 3);
    c.reset();
    assert_eq!(c.take(), 1);
}

#[test]
fn never_more_than_the_ceiling_in_flight() {
    let rules = standard_ruleset();
    let names = ["a", "b", "c", "d", "e", "f", "g"];
    let jobs: Vec<Job> = names.iter().map(|n| job(n)).collect();
    let mut coord = Coordinator::begin_cycle(&rules, jobs);
    let mut granted = 0;
    while let Some(_) = coord.try_launch() {
        granted += 1;
    }
    // Only the ceiling's worth of slots could be granted, though work remains.
    assert_eq!(granted, CONCURRENCY_LIMIT);
    assert_eq!(coord.in_flight, CONCURRENCY_LIMIT);
    assert_eq!(coord.pending.len(), names.len() - CONCURRENCY_LIMIT);
    // A completion frees exactly one slot.
    let _ = coord.finish(Some(&quiet()), false);
    assert_eq!(coord.in_flight, CONCURRENCY_LIMIT - 1);
    assert!(coord.try_launch().is_some());
    assert_eq!(coord.in_flight, CONCURRENCY_LIMIT);
    assert!(coord.try_launch().is_none());
}

#[test]
fn reported_jobs_get_unique_increasing_ordinals() {
    let rules = standard_ruleset();
    let jobs: Vec<Job> = ["a", "b", "c"].iter().map(|n| job(n)).collect();
    let mut coord = Coordinator::begin_cycle(&rules, jobs);
    let _ = coord.try_launch().unwrap();
    let _ = coord.try_launch().unwrap();
    let _ = coord.try_launch().unwrap();
    let a1 = coord.finish(Some(&failing()), false);
    let a2 = coord.finish(Some(&quiet()), false);
    let a3 = coord.finish(Some(&running()), false);
    assert_eq!(a1.report, Some((1, Classification::Failing)));
    // A quiet job is not reported and takes no ordinal.
    assert_eq!(a2.report, None);
    assert_eq!(a3.report, Some((2, Classification::InProgress)));
}

#[test]
fn counter_restarts_each_cycle() {
    let rules = standard_ruleset();
    let mut coord = Coordinator::begin_cycle(&rules, vec![job("a")]);
    let _ = coord.try_launch().unwrap();
    let a = coord.finish(Some(&failing()), false);
    assert_eq!(a.report, Some((1, Classification::Failing)));
    // The next cycle starts over at the initial ordinal.
    let mut coord = Coordinator::begin_cycle(&rules, vec![job("b")]);
    let _ = coord.try_launch().unwrap();
    let a = coord.finish(Some(&failing()), false);
    assert_eq!(a.report, Some((1, Classification::Failing)));
}

#[test]
fn a_failed_check_only_releases_its_slot() {
    let rules = standard_ruleset();
    let mut coord = Coordinator::begin_cycle(&rules, vec![job("a")]);
    let _ = coord.try_launch().unwrap();
    let a = coord.finish(None, true);
    assert_eq!(a.report, None);
    assert!(!a.retry);
    assert_eq!(coord.in_flight, 0);
}

#[test]
fn retry_disabled_never_requests_a_rebuild() {
    let rules = standard_ruleset();
    for _ in 0..3 {
        let jobs: Vec<Job> = ["a", "b"].iter().map(|n| job(n)).collect();
        let mut coord = Coordinator::begin_cycle(&rules, jobs);
        let _ = coord.try_launch().unwrap();
        let _ = coord.try_launch().unwrap();
        let a1 = coord.finish(Some(&failing()), false);
        let a2 = coord.finish(Some(&failing()), false);
        assert!(!a1.retry);
        assert!(!a2.retry);
    }
    assert!(!should_retry(Classification::Failing, false));
    assert!(!should_retry(Classification::InProgress, true));
    assert!(!should_retry(Classification::Quiet, true));
    assert!(should_retry(Classification::Failing, true));
}

#[test]
fn one_cycle_end_to_end() {
    // Three jobs in the inventory: one disabled, one on the exclusion
    // list, one eligible. Only the eligible job is ever handed out, and
    // with retry enabled its failure asks for exactly one rebuild.
    let rules = JobFilterRuleset {
        suite_markers: Vec::new(),
        excluded_names: vec!["listed-out".to_string()],
        excluded_modules: Vec::new(),
    };
    let mut disabled = job("switched-off");
    disabled.disabled = true;
    let inventory = vec![disabled, job("listed-out"), job("eligible")];
    let mut coord = Coordinator::begin_cycle(&rules, inventory);
    assert_eq!(coord.pending.len(), 1);
    let launched = coord.try_launch().unwrap();
    assert_eq!(launched.name, "eligible");
    assert!(coord.try_launch().is_none());
    let action = coord.finish(Some(&failing()), true);
    assert_eq!(action.report, Some((1, Classification::Failing)));
    assert!(action.retry);
    assert_eq!(coord.in_flight, 0);
    assert_eq!(coord.pending.len(), 0);
}
