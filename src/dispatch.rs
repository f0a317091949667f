use vstd::prelude::*;
use crate::config::{Monitoring, PRStatus, Repository, pr_status_text};
use crate::metrics::{Family, MetricRegistry, after_set, label_view};

verus! {

/// The remote query that one monitor needs, with its repository resolved.
#[derive(Debug)]
pub enum Query {
    /// List the runs of `workflow`, filtered by `status` when one is given.
    WorkflowRuns { owner: String, repository: String, workflow: String, status: Option<String> },
    /// List the issues of the repository, filtered by state and labels when
    /// given; only those that are pull requests are counted.
    Issues {
        owner: String,
        repository: String,
        status: Option<PRStatus>,
        labels: Option<Vec<String>>,
    },
    /// Read the rate limit, under the alternate token held by the environment
    /// variable `pat_env` when one is named, else under the primary client.
    RateLimit { pat_env: Option<String> },
}

/// What the remote platform answered to a query, reduced to what is recorded.
#[derive(Debug)]
pub enum Reply {
    /// The listing's total count of runs, when it has one.
    WorkflowRuns { total_count: Option<u64> },
    /// For each listed issue, whether it carries pull-request metadata.
    Issues { is_pull_request: Vec<bool> },
    /// The identity's login and its remaining budget.
    RateLimit { login: String, remaining: u64 },
}

/// Why one dispatch of one monitor failed. None of these stops the tick.
#[derive(Debug, Clone, Copy, PartialEq, Eq)]
pub enum DispatchError {
    /// The remote call failed.
    Remote,
    /// The environment does not hold the alternate token that was named.
    MissingCredential,
    /// The monitor kind is not supported.
    Unsupported,
    /// The resolved repository has an empty owner or name.
    EmptyRepository,
    /// The reply does not answer the query that was made.
    UnexpectedReply,
}

/// An optional string as an optional character sequence.
pub open spec fn opt_text(o: Option<String>) -> Option<Seq<char>> {
    match o {
        Some(s) => Some(s@),
        None => None,
    }
}

/// An optional list of strings as an optional list of character sequences.
pub open spec fn opt_texts(o: Option<Vec<String>>) -> Option<Seq<Seq<char>>> {
    match o {
        Some(v) => Some(label_view(v@)),
        None => None,
    }
}

/// The repository a monitor works on: its own when it names one (entirely,
/// with no field taken from the default), else the default.
pub open spec fn resolved(repo: Option<Repository>, def_owner: Seq<char>, def_repo: Seq<char>) -> (
    Seq<char>,
    Seq<char>,
) {
    match repo {
        Some(r) => (r.owner@, r.repository@),
        None => (def_owner, def_repo),
    }
}

/// The resolved repository has an empty owner or an empty name.
pub open spec fn repository_empty(
    repo: Option<Repository>,
    def_owner: Seq<char>,
    def_repo: Seq<char>,
) -> bool {
    resolved(repo, def_owner, def_repo).0.len() == 0 || resolved(repo, def_owner, def_repo).1.len()
        == 0
}

/// The query that a monitor needs, or the failure it reports.
pub open spec fn query_matches(
    def_owner: Seq<char>,
    def_repo: Seq<char>,
    m: Monitoring,
    r: Result<Query, DispatchError>,
) -> bool {
    match m {
        Monitoring::Job { repo, .. } if repository_empty(repo, def_owner, def_repo) => r == Err::<
            Query,
            DispatchError,
        >(DispatchError::EmptyRepository),
        Monitoring::PullRequests { repo, .. } if repository_empty(repo, def_owner, def_repo) => r
            == Err::<Query, DispatchError>(DispatchError::EmptyRepository),
        Monitoring::Job { status, workflow, repo } => r matches Ok(
            Query::WorkflowRuns { owner: o, repository: n, workflow: w, status: s },
        ) && (o@, n@) == resolved(repo, def_owner, def_repo) && w@ == workflow@ && opt_text(s)
            == opt_text(status),
        Monitoring::PullRequests { status, labels, repo } => r matches Ok(
            Query::Issues { owner: o, repository: n, status: s, labels: l },
        ) && (o@, n@) == resolved(repo, def_owner, def_repo) && s == status && opt_texts(l)
            == opt_texts(labels),
        Monitoring::RateLimit { pat_env } => r matches Ok(Query::RateLimit { pat_env: p })
            && opt_text(p) == opt_text(pat_env),
        Monitoring::Custom { .. } => r == Err::<Query, DispatchError>(DispatchError::Unsupported),
    }
}

/// Labels joined by commas, as in a metric label.
pub open spec fn join_csv(items: Seq<Seq<char>>) -> Seq<char>
    decreases items.len(),
{
    if items.len() == 0 {
        Seq::empty()
    } else if items.len() == 1 {
        items[0]
    } else {
        join_csv(items.drop_last()) + seq![','] + items.last()
    }
}

/// How many entries are true.
pub open spec fn count_true(items: Seq<bool>) -> nat
    decreases items.len(),
{
    if items.len() == 0 {
        0
    } else {
        count_true(items.drop_last()) + if items.last() {
            1nat
        } else {
            0nat
        }
    }
}

/// A count as a gauge value: itself where it fits, else the largest value.
pub open spec fn gauge_count(n: int) -> i64 {
    if n <= i64::MAX {
        n as i64
    } else {
        i64::MAX
    }
}

/// The gauge that a reply to a query sets: its family, label values and value;
/// or the failure that is reported instead.
pub open spec fn update_of(q: Query, reply: Result<Reply, DispatchError>) -> Result<
    (Family, Seq<Seq<char>>, i64),
    DispatchError,
> {
    match reply {
        Err(e) => Err(e),
        Ok(rep) => match (q, rep) {
            (
                Query::WorkflowRuns { owner, repository, workflow, status },
                Reply::WorkflowRuns { total_count },
            ) => Ok(
                (
                    Family::Jobs,
                    seq![
                        owner@,
                        repository@,
                        match status {
                            Some(s) => s@,
                            None => Seq::empty(),
                        },
                        workflow@,
                    ],
                    match total_count {
                        Some(t) => gauge_count(t as int),
                        None => 0,
                    },
                ),
            ),
            (
                Query::Issues { owner, repository, status, labels },
                Reply::Issues { is_pull_request },
            ) => Ok(
                (
                    Family::PullRequests,
                    seq![
                        owner@,
                        repository@,
                        pr_status_text(
                            match status {
                                Some(s) => s,
                                None => PRStatus::All,
                            },
                        ),
                        match labels {
                            Some(l) => join_csv(label_view(l@)),
                            None => Seq::empty(),
                        },
                    ],
                    gauge_count(count_true(is_pull_request@) as int),
                ),
            ),
            (Query::RateLimit { .. }, Reply::RateLimit { login, remaining }) => Ok(
                (Family::RateLimit, seq![login@], gauge_count(remaining as int)),
            ),
            _ => Err(DispatchError::UnexpectedReply),
        },
    }
}

/// A copy of a string.
fn copy_text(s: &String) -> (r: String)
    ensures
        r@ == s@,
{
    s.clone()
}

/// A copy of an optional string.
fn copy_opt_text(o: &Option<String>) -> (r: Option<String>)
    ensures
        opt_text(r) == opt_text(*o),
{
    match o {
        Some(s) => Some(s.clone()),
        None => None,
    }
}

/// A copy of a list of strings.
fn copy_texts(v: &Vec<String>) -> (r: Vec<String>)
    ensures
        label_view(r@) == label_view(v@),
{
    let mut r: Vec<String> = Vec::new();
    let mut i: usize = 0;
    while i < v.len()
        invariant
            i <= v.len(),
            r@.len() == i,
            forall|j: int| 0 <= j < i ==> #[trigger] r@[j]@ == v@[j]@,
        decreases v.len() - i,
    {
        r.push(copy_text(&v[i]));
        i = i + 1;
    }
    assert(label_view(r@) =~= label_view(v@));
    r
}

/// The repository a monitor works on: its own when it names one, else the
/// default.
pub fn resolve_repository(repo: &Option<Repository>, def_owner: &str, def_repo: &str) -> (r:
    Repository)
    ensures
        (r.owner@, r.repository@) == resolved(*repo, def_owner@, def_repo@),
{
    match repo {
        Some(rp) => Repository { owner: copy_text(&rp.owner), repository: copy_text(&rp.repository) },
        None => Repository { owner: def_owner.to_owned(), repository: def_repo.to_owned() },
    }
}

/// The remote query that dispatching `monitor` needs, with the repository
/// resolved against the defaults. A job or pull-request monitor whose
/// resolved repository has an empty owner or name is refused. A custom
/// monitor is not supported and always fails.
pub fn query(def_owner: &str, def_repo: &str, monitor: &Monitoring) -> (r: Result<
    Query,
    DispatchError,
>)
    ensures
        query_matches(def_owner@, def_repo@, *monitor, r),
{
    match monitor {
        Monitoring::Job { status, workflow, repo } => {
            let rp = resolve_repository(repo, def_owner, def_repo);
            if rp.owner.as_str().unicode_len() == 0 || rp.repository.as_str().unicode_len() == 0 {
                return Err(DispatchError::EmptyRepository);
            }
            Ok(
                Query::WorkflowRuns {
                    owner: rp.owner,
                    repository: rp.repository,
                    workflow: copy_text(workflow),
                    status: copy_opt_text(status),
                },
            )
        },
        Monitoring::PullRequests { status, labels, repo } => {
            let rp = resolve_repository(repo, def_owner, def_repo);
            if rp.owner.as_str().unicode_len() == 0 || rp.repository.as_str().unicode_len() == 0 {
                return Err(DispatchError::EmptyRepository);
            }
            let l = match labels {
                Some(v) => Some(copy_texts(v)),
                None => None,
            };
            Ok(
                Query::Issues {
                    owner: rp.owner,
                    repository: rp.repository,
                    status: *status,
                    labels: l,
                },
            )
        },
        Monitoring::RateLimit { pat_env } => Ok(
            Query::RateLimit { pat_env: copy_opt_text(pat_env) },
        ),
        Monitoring::Custom { .. } => Err(DispatchError::Unsupported),
    }
}

/// The effect of recording a reply: the gauge that the update names takes
/// its value and every other gauge stays; a failure is reported and changes
/// nothing.
pub open spec fn recorded(
    before: MetricRegistry,
    after: MetricRegistry,
    u: Result<(Family, Seq<Seq<char>>, i64), DispatchError>,
    r: Result<(), DispatchError>,
) -> bool {
    match u {
        Ok((f, labels, v)) => {
            &&& r is Ok
            &&& after.gauges(f) == after_set(before.gauges(f), labels, v)
            &&& forall|g: Family| g != f ==> #[trigger] after.gauges(g) == before.gauges(g)
        },
        Err(e) => {
            &&& r == Err::<(), DispatchError>(e)
            &&& forall|g: Family| #[trigger] after.gauges(g) == before.gauges(g)
        },
    }
}

/// A count as a gauge value, saturating at the largest one.
fn gauge_from(n: u64) -> (r: i64)
    ensures
        r == gauge_count(n as int),
{
    if n <= i64::MAX as u64 {
        n as i64
    } else {
        i64::MAX
    }
}

/// Labels joined by commas.
pub fn join_labels(items: &Vec<String>) -> (r: String)
    ensures
        r@ == join_csv(label_view(items@)),
{
    let mut r = String::new();
    let mut i: usize = 0;
    proof {
        reveal_strlit(",");
        assert(label_view(items@).take(0) =~= Seq::<Seq<char>>::empty());
    }
    while i < items.len()
        invariant
            i <= items.len(),
            r@ == join_csv(label_view(items@).take(i as int)),
            ","@ == seq![','],
        decreases items.len() - i,
    {
        proof {
            let s = label_view(items@).take(i + 1);
            assert(s.drop_last() =~= label_view(items@).take(i as int));
            assert(s.last() == items@[i as int]@);
        }
        if i > 0 {
            r.append(",");
        }
        r.append(items[i].as_str());
        i = i + 1;
    }
    assert(label_view(items@).take(items.len() as int) =~= label_view(items@));
    r
}

/// How many of the listed issues are pull requests.
pub fn count_pull_requests(is_pull_request: &Vec<bool>) -> (r: u64)
    ensures
        r as int == count_true(is_pull_request@),
{
    let mut n: u64 = 0;
    let mut i: usize = 0;
    while i < is_pull_request.len()
        invariant
            i <= is_pull_request.len(),
            n as int == count_true(is_pull_request@.take(i as int)),
            n <= i,
        decreases is_pull_request.len() - i,
    {
        proof {
            assert(is_pull_request@.take(i + 1).drop_last() =~= is_pull_request@.take(i as int));
        }
        if is_pull_request[i] {
            n = n + 1;
        }
        i = i + 1;
    }
    assert(is_pull_request@.take(is_pull_request.len() as int) =~= is_pull_request@);
    n
}

/// Records the reply to a query: the gauge that the query's monitor reports
/// takes the value that the reply gives. A failed call, or a reply to another
/// kind of query, is reported and changes no gauge.
pub fn record(registry: &mut MetricRegistry, q: &Query, reply: Result<Reply, DispatchError>) -> (r:
    Result<(), DispatchError>)
    requires
        old(registry).wf(),
    ensures
        final(registry).wf(),
        recorded(*old(registry), *final(registry), update_of(*q, reply), r),
{
    match reply {
        Err(e) => Err(e),
        Ok(rep) => match (q, rep) {
            (
                Query::WorkflowRuns { owner, repository, workflow, status },
                Reply::WorkflowRuns { total_count },
            ) => {
                let st = match status {
                    Some(s) => copy_text(s),
                    None => String::new(),
                };
                let labels: Vec<String> = vec![
                    copy_text(owner),
                    copy_text(repository),
                    st,
                    copy_text(workflow),
                ];
                let value = match total_count {
                    Some(t) => gauge_from(t),
                    None => 0,
                };
                proof {
                    assert(label_view(labels@) =~= update_of(*q, reply)->Ok_0.1);
                }
                registry.set(Family::Jobs, &labels, value);
                Ok(())
            },
            (
                Query::Issues { owner, repository, status, labels },
                Reply::Issues { is_pull_request },
            ) => {
                let st = match status {
                    Some(s) => s.label(),
                    None => PRStatus::All.label(),
                };
                let joined = match labels {
                    Some(l) => join_labels(l),
                    None => String::new(),
                };
                let values: Vec<String> = vec![
                    copy_text(owner),
                    copy_text(repository),
                    st,
                    joined,
                ];
                let value = gauge_from(count_pull_requests(&is_pull_request));
                proof {
                    assert(label_view(values@) =~= update_of(*q, reply)->Ok_0.1);
                }
                registry.set(Family::PullRequests, &values, value);
                Ok(())
            },
            (Query::RateLimit { .. }, Reply::RateLimit { login, remaining }) => {
                let value = gauge_from(remaining);
                let values: Vec<String> = vec![login];
                proof {
                    assert(label_view(values@) =~= update_of(*q, reply)->Ok_0.1);
                }
                registry.set(Family::RateLimit, &values, value);
                Ok(())
            },
            _ => Err(DispatchError::UnexpectedReply),
        },
    }
}

/// A custom monitor always reports the unsupported-feature failure: it never
/// yields a query, and so never reaches the registry.
pub proof fn lemma_custom_always_fails(
    def_owner: Seq<char>,
    def_repo: Seq<char>,
    m: Monitoring,
    r: Result<Query, DispatchError>,
)
    requires
        m is Custom,
        query_matches(def_owner, def_repo, m, r),
    ensures
        r == Err::<Query, DispatchError>(DispatchError::Unsupported),
{
}

/// A rate-limit monitor without an alternate token queries under the primary
/// identity, and the reply sets the rate-limit gauge labelled by that
/// identity's login to its remaining budget.
pub proof fn lemma_rate_limit_primary(
    def_owner: Seq<char>,
    def_repo: Seq<char>,
    q: Query,
    login: String,
    remaining: u64,
)
    requires
        query_matches(def_owner, def_repo, Monitoring::RateLimit { pat_env: None }, Ok(q)),
    ensures
        q matches Query::RateLimit { pat_env } && pat_env is None,
        update_of(q, Ok(Reply::RateLimit { login, remaining })) == Ok::<
            (Family, Seq<Seq<char>>, i64),
            DispatchError,
        >((Family::RateLimit, seq![login@], gauge_count(remaining as int))),
{
}

/// A job monitor reports under its resolved repository: without its own
/// repository the defaults label the gauge, with one the defaults play no
/// part; status and workflow label it as configured.
pub proof fn lemma_job_labels(
    def_owner: Seq<char>,
    def_repo: Seq<char>,
    m: Monitoring,
    q: Query,
    total_count: Option<u64>,
)
    requires
        m is Job,
        query_matches(def_owner, def_repo, m, Ok(q)),
    ensures
        update_of(q, Ok(Reply::WorkflowRuns { total_count })) matches Ok((f, labels, v)) && f
            == Family::Jobs && labels.len() == 4 && (labels[0], labels[1]) == resolved(
            m->Job_repo,
            def_owner,
            def_repo,
        ) && labels[2] == (match m->Job_status {
            Some(s) => s@,
            None => Seq::<char>::empty(),
        }) && labels[3] == m->Job_workflow@ && v == (match total_count {
            Some(t) => gauge_count(t as int),
            None => 0,
        }),
{
}

} // verus!
