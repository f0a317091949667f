use github_exporter::config::{
    default_monitor_period, Monitoring, PRStatus, PrometheusMetric, Repository,
};
use github_exporter::dispatch::{
    count_pull_requests, join_labels, query, record, resolve_repository, DispatchError, Query,
    Reply,
};
use github_exporter::metrics::{Family, MetricRegistry};

fn s(x: &str) -> String {
    x.to_string()
}

fn repo(owner: &str, name: &str) -> Option<Repository> {
    Some(Repository { owner: s(owner), repository: s(name) })
}

fn rendered(reg: &MetricRegistry) -> String {
    reg.render().expect("the registry renders")
}

#[test]
fn default_period_is_thirty_seconds() {
    assert_eq!(default_monitor_period(), 30);
}

#[test]
fn repository_defaults_apply_without_override() {
    let r = resolve_repository(&None, "o", "r");
    assert_eq!(r.owner, "o");
    assert_eq!(r.repository, "r");
}

#[test]
fn repository_override_wins_entirely() {
    let r = resolve_repository(&repo("other", "proj"), "o", "r");
    assert_eq!(r.owner, "other");
    assert_eq!(r.repository, "proj");
}

#[test]
fn job_query_uses_default_repository() {
    let m = Monitoring::Job { status: None, workflow: s("build"), repo: None };
    match query("o", "r", &m) {
        Ok(Query::WorkflowRuns { owner, repository, workflow, status }) => {
            assert_eq!(owner, "o");
            assert_eq!(repository, "r");
            assert_eq!(workflow, "build");
            assert_eq!(status, None);
        }
        other => panic!("unexpected query {:?}", other),
    }
}

#[test]
fn job_query_uses_explicit_repository() {
    let m = Monitoring::Job {
        status: Some(s("queued")),
        workflow: s("ci"),
        repo: repo("acme", "tools"),
    };
    match query("o", "r", &m) {
        Ok(Query::WorkflowRuns { owner, repository, workflow, status }) => {
            assert_eq!(owner, "acme");
            assert_eq!(repository, "tools");
            assert_eq!(workflow, "ci");
            assert_eq!(status, Some(s("queued")));
        }
        other => panic!("unexpected query {:?}", other),
    }
}

#[test]
fn pull_request_query_keeps_filters() {
    let m = Monitoring::PullRequests {
        status: Some(PRStatus::Closed),
        labels: Some(vec![s("bug"), s("ui")]),
        repo: None,
    };
    match query("o", "r", &m) {
        Ok(Query::Issues { owner, repository, status, labels }) => {
            assert_eq!(owner, "o");
            assert_eq!(repository, "r");
            assert_eq!(status, Some(PRStatus::Closed));
            assert_eq!(labels, Some(vec![s("bug"), s("ui")]));
        }
        other => panic!("unexpected query {:?}", other),
    }
}

#[test]
fn custom_monitor_is_unsupported() {
    let m = Monitoring::Custom {
        url: s("https://example.com"),
        query: None,
        prometheus_metric: PrometheusMetric::Gauge,
        repo: None,
    };
    assert!(matches!(query("o", "r", &m), Err(DispatchError::Unsupported)));
}

#[test]
fn job_total_count_is_recorded() {
    let mut reg = MetricRegistry::new();
    let m = Monitoring::Job { status: None, workflow: s("build"), repo: None };
    let q = query("o", "r", &m).unwrap();
    let r = record(&mut reg, &q, Ok(Reply::WorkflowRuns { total_count: Some(7) }));
    assert_eq!(r, Ok(()));
    let text = rendered(&reg);
    assert!(text.contains("github_jobs{owner=\"o\",repository=\"r\",status=\"\",workflow=\"build\"} 7\n"));
}

#[test]
fn missing_total_count_is_recorded_as_zero() {
    let mut reg = MetricRegistry::new();
    let m = Monitoring::Job { status: Some(s("queued")), workflow: s("build"), repo: None };
    let q = query("o", "r", &m).unwrap();
    record(&mut reg, &q, Ok(Reply::WorkflowRuns { total_count: None })).unwrap();
    let text = rendered(&reg);
    assert!(text.contains("github_jobs{owner=\"o\",repository=\"r\",status=\"queued\",workflow=\"build\"} 0\n"));
}

#[test]
fn only_pull_requests_are_counted() {
    let mut reg = MetricRegistry::new();
    let m = Monitoring::PullRequests { status: None, labels: None, repo: None };
    let q = query("o", "r", &m).unwrap();
    let flags = vec![true, false, true, false, true];
    record(&mut reg, &q, Ok(Reply::Issues { is_pull_request: flags })).unwrap();
    let text = rendered(&reg);
    assert!(text.contains("github_pull_requests{label=\"\",owner=\"o\",repository=\"r\",status=\"all\"} 3\n"));
}

#[test]
fn pull_request_labels_are_joined() {
    let mut reg = MetricRegistry::new();
    let m = Monitoring::PullRequests {
        status: Some(PRStatus::Open),
        labels: Some(vec![s("bug"), s("ui")]),
        repo: repo("acme", "tools"),
    };
    let q = query("o", "r", &m).unwrap();
    record(&mut reg, &q, Ok(Reply::Issues { is_pull_request: vec![true, true] })).unwrap();
    let text = rendered(&reg);
    assert!(text.contains("github_pull_requests{label=\"bug,ui\",owner=\"acme\",repository=\"tools\",status=\"open\"} 2\n"));
}

#[test]
fn rate_limit_is_recorded_under_login() {
    let mut reg = MetricRegistry::new();
    let m = Monitoring::RateLimit { pat_env: None };
    let q = query("o", "r", &m).unwrap();
    match &q {
        Query::RateLimit { pat_env } => assert_eq!(*pat_env, None),
        other => panic!("unexpected query {:?}", other),
    }
    record(&mut reg, &q, Ok(Reply::RateLimit { login: s("octo-bot"), remaining: 4999 })).unwrap();
    let text = rendered(&reg);
    assert!(text.contains("github_rate_limit{username=\"octo-bot\"} 4999\n"));
}

#[test]
fn rate_limit_alternate_token_is_named() {
    let m = Monitoring::RateLimit { pat_env: Some(s("BOT_PAT")) };
    match query("o", "r", &m) {
        Ok(Query::RateLimit { pat_env }) => assert_eq!(pat_env, Some(s("BOT_PAT"))),
        other => panic!("unexpected query {:?}", other),
    }
}

#[test]
fn huge_count_saturates() {
    let mut reg = MetricRegistry::new();
    let m = Monitoring::RateLimit { pat_env: None };
    let q = query("o", "r", &m).unwrap();
    record(&mut reg, &q, Ok(Reply::RateLimit { login: s("me"), remaining: u64::MAX })).unwrap();
    let text = rendered(&reg);
    // gauges are written out as floating-point numbers
    let expected = format!("github_rate_limit{{username=\"me\"}} {}\n", (i64::MAX as f64).to_string());
    assert!(text.contains(&expected));
}

#[test]
fn remote_failure_is_reported_and_changes_nothing() {
    let mut reg = MetricRegistry::new();
    let before = rendered(&reg);
    let m = Monitoring::Job { status: None, workflow: s("build"), repo: None };
    let q = query("o", "r", &m).unwrap();
    assert_eq!(record(&mut reg, &q, Err(DispatchError::Remote)), Err(DispatchError::Remote));
    assert_eq!(
        record(&mut reg, &q, Err(DispatchError::MissingCredential)),
        Err(DispatchError::MissingCredential)
    );
    assert_eq!(rendered(&reg), before);
}

#[test]
fn mismatched_reply_is_rejected() {
    let mut reg = MetricRegistry::new();
    let m = Monitoring::Job { status: None, workflow: s("build"), repo: None };
    let q = query("o", "r", &m).unwrap();
    let r = record(&mut reg, &q, Ok(Reply::Issues { is_pull_request: vec![true] }));
    assert_eq!(r, Err(DispatchError::UnexpectedReply));
    assert!(!rendered(&reg).contains("github_pull_requests"));
}

#[test]
fn last_write_wins() {
    let mut reg = MetricRegistry::new();
    let labels = vec![s("me")];
    reg.set(Family::RateLimit, &labels, 10);
    reg.set(Family::RateLimit, &labels, 4);
    let text = rendered(&reg);
    assert!(text.contains("github_rate_limit{username=\"me\"} 4\n"));
    assert!(!text.contains("github_rate_limit{username=\"me\"} 10\n"));
}

#[test]
fn join_and_count_helpers() {
    assert_eq!(join_labels(&vec![]), "");
    assert_eq!(join_labels(&vec![s("a")]), "a");
    assert_eq!(join_labels(&vec![s("a"), s("b"), s("c")]), "a,b,c");
    assert_eq!(count_pull_requests(&vec![]), 0);
    assert_eq!(count_pull_requests(&vec![false, true, true]), 2);
}

#[test]
fn pr_status_labels() {
    assert_eq!(PRStatus::Open.label(), "open");
    assert_eq!(PRStatus::Closed.label(), "closed");
    assert_eq!(PRStatus::All.label(), "all");
    assert!(matches!(PRStatus::Open.to_state(), octocrab::params::State::Open));
    assert!(matches!(PRStatus::Closed.to_state(), octocrab::params::State::Closed));
    assert!(matches!(PRStatus::All.to_state(), octocrab::params::State::All));
}

#[test]
fn empty_repository_is_refused() {
    let job = Monitoring::Job { status: None, workflow: s("build"), repo: None };
    assert!(matches!(query("", "r", &job), Err(DispatchError::EmptyRepository)));
    let prs = Monitoring::PullRequests { status: None, labels: None, repo: repo("acme", "") };
    assert!(matches!(query("o", "r", &prs), Err(DispatchError::EmptyRepository)));
    let ok = Monitoring::Job { status: None, workflow: s("build"), repo: repo("acme", "tools") };
    assert!(query("", "", &ok).is_ok());
}
