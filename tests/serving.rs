use github_exporter::args::LogLevels;
use github_exporter::metrics::{Family, MetricRegistry};
use github_exporter::scheduler::{Action, Event, Phase, Scheduler};
use github_exporter::server::{handle_request, is_metrics_request, metrics_response};
use github_exporter::metrics::MetricsError;

#[test]
fn fresh_registry_renders_empty() {
    let reg = MetricRegistry::new();
    assert_eq!(reg.render().unwrap(), "");
}

#[test]
fn metrics_path_serves_exposition() {
    let mut reg = MetricRegistry::new();
    reg.set(Family::RateLimit, &vec!["me".to_string()], 12);
    let r = handle_request(&reg, "GET", "/metrics");
    assert_eq!(r.status, 200);
    assert!(r.body.contains("# HELP github_rate_limit Rate limit\n"));
    assert!(r.body.contains("# TYPE github_rate_limit gauge\n"));
    assert!(r.body.contains("github_rate_limit{username=\"me\"} 12\n"));
}

#[test]
fn other_paths_are_not_found() {
    let reg = MetricRegistry::new();
    for method in ["GET", "POST", "PUT", "DELETE"] {
        for path in ["/", "/metric", "/metrics/", "/health", ""] {
            let r = handle_request(&reg, method, path);
            assert_eq!(r.status, 404);
            assert_eq!(r.body, "Not Found");
        }
    }
}

#[test]
fn other_methods_on_metrics_are_not_found() {
    let reg = MetricRegistry::new();
    let r = handle_request(&reg, "POST", "/metrics");
    assert_eq!(r.status, 404);
    assert!(!is_metrics_request("HEAD", "/metrics"));
    assert!(is_metrics_request("GET", "/metrics"));
}

#[test]
fn encoding_failure_is_a_server_error() {
    let r = metrics_response(Err(MetricsError::Encoding));
    assert_eq!(r.status, 500);
    assert_eq!(r.body, "Internal Server Error");
    let ok = metrics_response(Ok("x 1\n".to_string()));
    assert_eq!(ok.status, 200);
    assert_eq!(ok.body, "x 1\n");
}

#[test]
fn repeated_reads_are_identical_until_a_write() {
    let mut reg = MetricRegistry::new();
    let labels = vec!["o".to_string(), "r".to_string(), "".to_string(), "build".to_string()];
    reg.set(Family::Jobs, &labels, 7);
    let first = handle_request(&reg, "GET", "/metrics");
    let second = handle_request(&reg, "GET", "/metrics");
    assert_eq!(first.body, second.body);
    reg.set(Family::Jobs, &labels, 9);
    let third = handle_request(&reg, "GET", "/metrics");
    assert!(third.body.contains("github_jobs{owner=\"o\",repository=\"r\",status=\"\",workflow=\"build\"} 9\n"));
    assert_ne!(first.body, third.body);
}

#[test]
fn tick_dispatches_monitors_in_order() {
    let mut s = Scheduler::new(3);
    assert_eq!(s.step(Event::Tick), Action::Dispatch { index: 0 });
    assert_eq!(s.step(Event::Tick), Action::Wait);
    assert_eq!(s.step(Event::Done), Action::Dispatch { index: 1 });
    assert_eq!(s.step(Event::Done), Action::Dispatch { index: 2 });
    assert_eq!(s.phase, Phase::Ticking { current: 2 });
    assert_eq!(s.step(Event::Done), Action::Wait);
    assert_eq!(s.phase, Phase::Idle);
    assert_eq!(s.step(Event::Done), Action::Wait);
    assert_eq!(s.step(Event::Tick), Action::Dispatch { index: 0 });
}

#[test]
fn empty_configuration_never_dispatches() {
    let mut s = Scheduler::new(0);
    assert_eq!(s.step(Event::Tick), Action::Wait);
    assert_eq!(s.step(Event::Done), Action::Wait);
    assert_eq!(s.phase, Phase::Idle);
}

#[test]
fn log_levels_map_to_facade_levels() {
    assert_eq!(LogLevels::Trace.into_level(), log::Level::Trace);
    assert_eq!(LogLevels::Debug.into_level(), log::Level::Debug);
    assert_eq!(LogLevels::Info.into_level(), log::Level::Info);
    assert_eq!(LogLevels::Warn.into_level(), log::Level::Warn);
    assert_eq!(LogLevels::Error.into_level(), log::Level::Error);
}

#[test]
fn families_are_written_in_order_of_name() {
    let mut reg = MetricRegistry::new();
    reg.set(Family::RateLimit, &vec!["me".to_string()], 1);
    let pr = vec!["o".to_string(), "r".to_string(), "all".to_string(), "".to_string()];
    reg.set(Family::PullRequests, &pr, 2);
    let job = vec!["o".to_string(), "r".to_string(), "".to_string(), "build".to_string()];
    reg.set(Family::Jobs, &job, 3);
    let text = reg.render().unwrap();
    let jobs = text.find("# HELP github_jobs Number of jobs").unwrap();
    let prs = text.find("# HELP github_pull_requests").unwrap();
    let rate = text.find("# HELP github_rate_limit").unwrap();
    assert!(jobs < prs && prs < rate);
    assert!(!text.contains("github_custom"));
    assert!(!text.contains("github_jobs_queue_time"));
}

#[test]
fn tuples_with_the_same_bytes_share_a_gauge() {
    let mut reg = MetricRegistry::new();
    let first = vec!["ab".to_string(), "c".to_string(), "s".to_string(), "w".to_string()];
    let second = vec!["a".to_string(), "bc".to_string(), "s".to_string(), "w".to_string()];
    reg.set(Family::Jobs, &first, 1);
    reg.set(Family::Jobs, &second, 2);
    let text = reg.render().unwrap();
    assert!(text.contains("github_jobs{owner=\"ab\",repository=\"c\",status=\"s\",workflow=\"w\"} 2\n"));
    assert!(!text.contains("owner=\"a\","));
}
