use jenkins_monitor::filter::{standard_ruleset, JobFilterRuleset};
use jenkins_monitor::jobs::Job;
use jenkins_monitor::text::{chars_of, strip_build_suffix};

fn job(name: &str) -> Job {
    Job {
        name: name.to_string(),
        disabled: false,
        in_queue: false,
        url: format!("http://ci.example/job/{}", name),
    }
}

#[test]
fn disabled_job_is_excluded_regardless_of_name() {
    let rules = standard_ruleset();
    let mut j = job("perfectly-ordinary-job");
    j.disabled = true;
    assert!(!rules.include_job(&j));
}

#[test]
fn queued_job_is_excluded_regardless_of_name() {
    let rules = standard_ruleset();
    let mut j = job("another-ordinary-job");
    j.in_queue = true;
    assert!(!rules.include_job(&j));
}

#[test]
fn suite_boundary_markers_exclude_case_insensitively() {
    let rules = standard_ruleset();
    assert!(!rules.include_job(&job("payments_start_test_suite")));
    assert!(!rules.include_job(&job("payments_START_Test_Suite")));
    assert!(!rules.include_job(&job("checkout-test-suite-start")));
    assert!(!rules.include_job(&job("CHECKOUT-TEST-SUITE-START")));
    assert!(!rules.include_job(&job("deploy-post-deployment")));
    assert!(!rules.include_job(&job("deploy-Post-Deployment-check")));
}

#[test]
fn marker_survives_build_number_suffix() {
    let rules = standard_ruleset();
    assert!(!rules.include_job(&job("checkout-test-suite-start #12")));
}

#[test]
fn ordinary_job_is_kept() {
    let rules = standard_ruleset();
    assert!(rules.include_job(&job("build-and-test")));
    assert!(rules.include_job(&job("Daily-Build")));
}

#[test]
fn strip_removes_trailing_build_number() {
    let v = chars_of("Daily-Build #42");
    let stripped = strip_build_suffix(&v);
    assert_eq!(stripped, chars_of("Daily-Build"));
}

#[test]
fn strip_leaves_plain_names_alone() {
    for name in ["Daily-Build", "job#7", "#7", "job 7", "job #x", "job #7x"] {
        let v = chars_of(name);
        assert_eq!(strip_build_suffix(&v), v);
    }
}

#[test]
fn strip_takes_all_padding_whitespace() {
    let v = chars_of("Daily-Build   #123");
    assert_eq!(strip_build_suffix(&v), chars_of("Daily-Build"));
}

#[test]
fn suffixed_name_is_treated_like_its_stripped_form() {
    let rules = JobFilterRuleset {
        suite_markers: Vec::new(),
        excluded_names: vec!["Daily-Build".to_string()],
        excluded_modules: Vec::new(),
    };
    // "Daily-Build #42" falls to the same exact-name check as "Daily-Build".
    assert!(!rules.include_job(&job("Daily-Build #42")));
    assert!(!rules.include_job(&job("Daily-Build")));
    assert!(rules.include_job(&job("Nightly-Build #42")));
}

#[test]
fn only_one_suffix_is_stripped() {
    let v = chars_of("A #1 #2");
    assert_eq!(strip_build_suffix(&v), chars_of("A #1"));
    let rules = JobFilterRuleset {
        suite_markers: Vec::new(),
        excluded_names: vec!["A #1".to_string()],
        excluded_modules: Vec::new(),
    };
    assert!(!rules.include_job(&job("A #1 #2")));
    let rules = JobFilterRuleset {
        suite_markers: Vec::new(),
        excluded_names: vec!["A".to_string()],
        excluded_modules: Vec::new(),
    };
    assert!(rules.include_job(&job("A #1 #2")));
}

#[test]
fn exact_name_exclusion_applies() {
    let rules = JobFilterRuleset {
        suite_markers: Vec::new(),
        excluded_names: vec!["flaky-job".to_string()],
        excluded_modules: Vec::new(),
    };
    assert!(!rules.include_job(&job("flaky-job")));
    assert!(rules.include_job(&job("flaky-job-two")));
}

#[test]
fn module_substring_exclusion_applies() {
    let rules = JobFilterRuleset {
        suite_markers: Vec::new(),
        excluded_names: Vec::new(),
        excluded_modules: vec!["legacy".to_string()],
    };
    assert!(!rules.include_job(&job("build-legacy-core")));
    assert!(rules.include_job(&job("build-modern-core")));
}

#[test]
fn filter_keeps_only_eligible_jobs_in_order() {
    let rules = JobFilterRuleset {
        suite_markers: Vec::new(),
        excluded_names: vec!["skipped".to_string()],
        excluded_modules: Vec::new(),
    };
    let mut disabled = job("first");
    disabled.disabled = true;
    let jobs = vec![disabled, job("second"), job("skipped"), job("third")];
    let kept = rules.filter_jobs(jobs);
    let names: Vec<String> = kept.into_iter().map(|j| j.name).collect();
    assert_eq!(names, vec!["second".to_string(), "third".to_string()]);
}
