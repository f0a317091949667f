use vstd::prelude::*;

verus! {

/// Monitoring period, in seconds, when the configuration gives none.
pub const DEFAULT_MONITOR_PERIOD: u64 = 30;

/// One remote repository: its owner and its name.
#[derive(Debug, Clone)]
pub struct Repository {
    pub owner: String,
    pub repository: String,
}

/// The state filter of a pull-request monitor.
#[derive(Debug, Clone, Copy, PartialEq, Eq)]
pub enum PRStatus {
    Open,
    Closed,
    All,
}

/// The metric kind that a custom monitor asks for.
#[derive(Debug, Clone, Copy, PartialEq, Eq)]
pub enum PrometheusMetric {
    Counter,
    Gauge,
    Histogram,
    Summary,
}

/// One thing to watch on the remote platform.
#[derive(Debug, Clone)]
pub enum Monitoring {
    /// Size of the workflow-run queue of one workflow.
    Job { status: Option<String>, workflow: String, repo: Option<Repository> },
    /// Number of pull requests, optionally filtered by state and labels.
    PullRequests { status: Option<PRStatus>, labels: Option<Vec<String>>, repo: Option<Repository> },
    /// Remaining rate-limit budget; `pat_env` names an environment variable
    /// that holds an alternate token.
    RateLimit { pat_env: Option<String> },
    /// A user-defined query; not supported.
    Custom {
        url: String,
        query: Option<String>,
        prometheus_metric: PrometheusMetric,
        repo: Option<Repository>,
    },
}

/// The whole monitoring configuration, read once at start.
#[derive(Debug, Clone)]
pub struct Config {
    pub default_owner: String,
    pub default_repo: String,
    pub monitor_period: u64,
    pub monitoring: Vec<Monitoring>,
}

/// The period used when the configuration names none.
pub fn default_monitor_period() -> (r: u64)
    ensures
        r == DEFAULT_MONITOR_PERIOD,
{
    DEFAULT_MONITOR_PERIOD
}

/// The text form of a pull-request state filter.
pub open spec fn pr_status_text(s: PRStatus) -> Seq<char> {
    match s {
        PRStatus::Open => "open"@,
        PRStatus::Closed => "closed"@,
        PRStatus::All => "all"@,
    }
}

/// The remote API's state filter for each pull-request state.
pub open spec fn state_of(s: PRStatus) -> octocrab::params::State {
    match s {
        PRStatus::Open => octocrab::params::State::Open,
        PRStatus::Closed => octocrab::params::State::Closed,
        PRStatus::All => octocrab::params::State::All,
    }
}

#[verifier::external_type_specification]
pub struct ExState(octocrab::params::State);

impl PRStatus {
    /// The state as it appears in a metric label.
    pub fn label(&self) -> (r: String)
        ensures
            r@ == pr_status_text(*self),
    {
        match self {
            PRStatus::Open => String::from_str("open"),
            PRStatus::Closed => String::from_str("closed"),
            PRStatus::All => String::from_str("all"),
        }
    }

    /// The state filter of the remote API.
    pub fn to_state(&self) -> (r: octocrab::params::State)
        ensures
            r == state_of(*self),
    {
        match self {
            PRStatus::Open => octocrab::params::State::Open,
            PRStatus::Closed => octocrab::params::State::Closed,
            PRStatus::All => octocrab::params::State::All,
        }
    }
}

} // verus!
