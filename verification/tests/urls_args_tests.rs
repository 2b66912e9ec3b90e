use jenkins_monitor::args::{parse_arguments, parse_u64};
use jenkins_monitor::text::chars_of;
use jenkins_monitor::urls::{inventory_url, rebuild_url, status_url};

#[test]
fn inventory_url_is_built_verbatim() {
    assert_eq!(
        inventory_url("http://ci.example"),
        "http://ci.example/api/json?tree=jobs[name,fullDisplayName,disabled,inQueue,url]"
    );
}

#[test]
fn job_names_are_percent_encoded_in_urls() {
    assert_eq!(
        status_url("http://ci.example", "My Job #1"),
        "http://ci.example/job/My%20Job%20%231/lastBuild/api/json"
    );
    assert_eq!(
        rebuild_url("http://ci.example", "My Job #1"),
        "http://ci.example/job/My%20Job%20%231/buildWithParameters"
    );
}

#[test]
fn plain_names_pass_through_encoding() {
    assert_eq!(
        status_url("http://ci.example", "simple-job_1.x~y"),
        "http://ci.example/job/simple-job_1.x~y/lastBuild/api/json"
    );
}

#[test]
fn numerals_are_read_exactly() {
    assert_eq!(parse_u64(&chars_of("0")), Some(0));
    assert_eq!(parse_u64(&chars_of("123")), Some(123));
    assert_eq!(parse_u64(&chars_of("+55")), Some(55));
    assert_eq!(parse_u64(&chars_of("18446744073709551615")), Some(u64::MAX));
    assert_eq!(parse_u64(&chars_of("18446744073709551616")), None);
    assert_eq!(parse_u64(&chars_of("")), None);
    assert_eq!(parse_u64(&chars_of("+")), None);
    assert_eq!(parse_u64(&chars_of("12x")), None);
    assert_eq!(parse_u64(&chars_of("-3")), None);
}

fn args(list: &[&str]) -> Vec<String> {
    list.iter().map(|s| s.to_string()).collect()
}

#[test]
fn defaults_apply_without_flags() {
    let p = parse_arguments(&args(&["monitor"]), 4);
    assert_eq!(p.url_index, 0);
    assert_eq!(p.interval_secs, 300);
    assert!(!p.retry);
}

#[test]
fn flags_are_read() {
    let p = parse_arguments(&args(&["monitor", "--url", "2", "--interval", "60", "--retry"]), 4);
    assert_eq!(p.url_index, 2);
    assert_eq!(p.interval_secs, 60);
    assert!(p.retry);
}

#[test]
fn url_index_is_clamped_to_the_list() {
    let p = parse_arguments(&args(&["monitor", "--url", "9"]), 4);
    assert_eq!(p.url_index, 3);
}

#[test]
fn unreadable_values_fall_back() {
    let p = parse_arguments(&args(&["monitor", "--url", "abc", "--interval", "soon"]), 4);
    assert_eq!(p.url_index, 0);
    assert_eq!(p.interval_secs, 300);
}

#[test]
fn a_trailing_flag_without_value_is_ignored() {
    let p = parse_arguments(&args(&["monitor", "--interval"]), 4);
    assert_eq!(p.interval_secs, 300);
}
