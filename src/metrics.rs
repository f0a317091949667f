use vstd::prelude::*;
use vstd::utf8::encode_utf8;

verus! {

#[verifier::external_type_specification]
#[verifier::external_body]
pub struct ExError(prometheus::Error);

/// One metric family: one integer gauge per label tuple, and a registry of
/// its own that gathers it.
///
/// Held opaquely: `prometheus::IntGaugeVec` names a builder type that the
/// crate keeps in a private module, so the type cannot be declared itself.
#[verifier::external_body]
pub struct GaugeFamily {
    vec: prometheus::IntGaugeVec,
    registry: prometheus::Registry,
}

/// What the gauges of a family hold: under each label key, the label values
/// that the gauge was created with, and its value.
pub type Gauges = Map<u64, (Seq<Seq<char>>, i64)>;

/// The 64-bit FNV-1a hash of `bytes`, continued from the state `h`.
pub open spec fn fnv1a(h: u64, bytes: Seq<u8>) -> u64
    decreases bytes.len(),
{
    if bytes.len() == 0 {
        h
    } else {
        fnv1a(
            (((h ^ (bytes[0] as u64)) as int * 0x100000001b3) % 0x1_0000_0000_0000_0000) as u64,
            bytes.drop_first(),
        )
    }
}

/// The UTF-8 bytes of the label values, one after the other with nothing
/// between them.
pub open spec fn label_bytes(values: Seq<Seq<char>>) -> Seq<u8>
    decreases values.len(),
{
    if values.len() == 0 {
        Seq::empty()
    } else {
        label_bytes(values.drop_last()) + encode_utf8(values.last())
    }
}

/// The key under which a family files the gauge of a label tuple: the FNV-1a
/// hash of the values' bytes, one after the other. Two tuples with the same
/// key (such as `("ab", "c")` and `("a", "bc")`) share one gauge.
pub open spec fn label_key(values: Seq<Seq<char>>) -> u64 {
    fnv1a(0xcbf29ce484222325, label_bytes(values))
}

/// The gauges that a family holds.
pub uninterp spec fn gauges_of(f: GaugeFamily) -> Map<u64, (Seq<Seq<char>>, i64)>;

/// What a family was declared with: its name, help text and label names.
pub uninterp spec fn meta_of(f: GaugeFamily) -> (Seq<char>, Seq<char>, Seq<Seq<char>>);

/// Whether the family's own registry gathers it.
pub uninterp spec fn registered_of(f: GaugeFamily) -> bool;

/// The text exposition of one family with the given name, help text, label
/// names and gauges.
pub uninterp spec fn family_text(
    name: Seq<char>,
    help: Seq<char>,
    label_names: Seq<Seq<char>>,
    gauges: Map<u64, (Seq<Seq<char>>, i64)>,
) -> Seq<char>;

/// The label values as character sequences.
pub open spec fn label_view(values: Seq<String>) -> Seq<Seq<char>> {
    values.map_values(|s: String| s@)
}

/// The label names as character sequences.
pub open spec fn names_view(names: Seq<&str>) -> Seq<Seq<char>> {
    names.map_values(|s: &str| s@)
}

/// A character that may start a metric name (`[a-zA-Z_:]`) or, without the
/// colon, a label name (`[a-zA-Z_]`).
pub open spec fn ident_char(c: char, colon: bool) -> bool {
    ('a' <= c && c <= 'z') || ('A' <= c && c <= 'Z') || c == '_' || (colon && c == ':')
}

/// Every character is an identifier character or a digit.
pub open spec fn ident_tail(s: Seq<char>, colon: bool) -> bool
    decreases s.len(),
{
    s.len() == 0 || ((ident_char(s.last(), colon) || ('0' <= s.last() && s.last() <= '9'))
        && ident_tail(s.drop_last(), colon))
}

/// A metric name (`colon`) or label name (not `colon`) that the metrics crate accepts.
pub open spec fn valid_ident(s: Seq<char>, colon: bool) -> bool {
    s.len() > 0 && ident_char(s[0], colon) && ident_tail(s, colon)
}

/// Label names that are valid and pairwise distinct.
pub open spec fn valid_label_names(names: Seq<Seq<char>>) -> bool {
    &&& forall|i: int| 0 <= i < names.len() ==> valid_ident(#[trigger] names[i], false)
    &&& forall|i: int, j: int|
        0 <= i < j < names.len() ==> #[trigger] names[i] != #[trigger] names[j]
}

/// What a family holds after its gauge for `labels`, filed under key `k`, is
/// set to `v`: the gauge under `k` takes the value; a new gauge keeps `labels`.
pub open spec fn after_set_at(g: Gauges, k: u64, labels: Seq<Seq<char>>, v: i64) -> Gauges {
    if g.contains_key(k) {
        g.insert(k, (g[k].0, v))
    } else {
        g.insert(k, (labels, v))
    }
}

/// What a family holds after its gauge for `labels` is set to `v`.
pub open spec fn after_set(g: Gauges, labels: Seq<Seq<char>>, v: i64) -> Gauges {
    after_set_at(g, label_key(labels), labels, v)
}

/// The value that a family reports for the key of a label tuple, if a gauge
/// is filed under it.
pub open spec fn gauge_value(g: Gauges, labels: Seq<Seq<char>>) -> Option<i64> {
    if g.contains_key(label_key(labels)) {
        Some(g[label_key(labels)].1)
    } else {
        None
    }
}

/// Relies on prometheus::IntGaugeVec::new, which succeeds when the help text
/// is not empty, the name is a valid metric name and the label names are
/// valid and distinct; the new family has no gauges. The registry beside it
/// (prometheus::Registry::new) starts empty.
#[verifier::external_body]
fn new_gauge_family(name: &str, help: &str, labels: &Vec<&str>) -> (r: Result<
    GaugeFamily,
    prometheus::Error,
>)
    ensures
        valid_ident(name@, true) && help@.len() > 0 && valid_label_names(names_view(labels@))
            ==> r is Ok,
        r matches Ok(f) ==> gauges_of(f) == Gauges::empty() && !registered_of(f) && meta_of(f)
            == (name@, help@, names_view(labels@)),
{
    match prometheus::IntGaugeVec::new(prometheus::Opts::new(name, help), labels) {
        Ok(vec) => Ok(GaugeFamily { vec, registry: prometheus::Registry::new() }),
        Err(e) => Err(e),
    }
}

/// Relies on prometheus::MetricVec::with_label_values and GenericGauge::set:
/// the gauge filed under the FNV-1a hash of the values' bytes (fnv's
/// FnvHasher, as the crate's `hash_label_values` computes it) is created when absent (with
/// these values) and takes the new value. The count of values must match the
/// family's label names, or the call panics.
#[verifier::external_body]
fn set_gauge(f: &mut GaugeFamily, values: &Vec<String>, value: i64)
    requires
        values@.len() == meta_of(*old(f)).2.len(),
    ensures
        meta_of(*final(f)) == meta_of(*old(f)),
        registered_of(*final(f)) == registered_of(*old(f)),
        gauges_of(*final(f)) == after_set_at(
            gauges_of(*old(f)),
            label_key(label_view(values@)),
            label_view(values@),
            value,
        ),
{
    let vals: Vec<&str> = values.iter().map(|s| s.as_str()).collect();
    f.vec.with_label_values(&vals).set(value);
}

/// Relies on prometheus::Registry::register: a registry that holds nothing
/// yet accepts the family (one descriptor, so no clash is possible), and
/// gathers its gauges from then on; a family that is already registered
/// stays registered.
#[verifier::external_body]
fn register_family(f: &mut GaugeFamily) -> (r: Result<(), prometheus::Error>)
    ensures
        !registered_of(*old(f)) ==> r is Ok,
        registered_of(*final(f)),
        meta_of(*final(f)) == meta_of(*old(f)),
        gauges_of(*final(f)) == gauges_of(*old(f)),
{
    f.registry.register(Box::new(f.vec.clone()))
}

/// Relies on prometheus::Registry::gather and TextEncoder::encode_to_string:
/// gathering drops a family without gauges and sorts the gauges by label
/// values, and the encoder fails only on a family without gauges or without
/// a name; so the text is a function of what the family was declared with and
/// holds, and is empty when it holds nothing.
#[verifier::external_body]
fn encode_family(f: &GaugeFamily) -> (r: Result<String, prometheus::Error>)
    requires
        registered_of(*f),
    ensures
        r is Ok,
        r matches Ok(s) ==> s@ == family_text(
            meta_of(*f).0,
            meta_of(*f).1,
            meta_of(*f).2,
            gauges_of(*f),
        ),
        r matches Ok(s) ==> (gauges_of(*f) == Gauges::empty() ==> s@.len() == 0),
{
    prometheus::TextEncoder::new().encode_to_string(&f.registry.gather())
}

/// The metric families that the exporter publishes.
#[derive(Debug, Clone, Copy, PartialEq, Eq)]
pub enum Family {
    /// `github_jobs{owner,repository,status,workflow}`: workflow-run queue size.
    Jobs,
    /// `github_jobs_queue_time{owner,repository,status,workflow}`: declared, never set.
    JobsQueueTime,
    /// `github_pull_requests{owner,repository,status,label}`: matching pull requests.
    PullRequests,
    /// `github_rate_limit{username}`: remaining rate-limit budget.
    RateLimit,
    /// `github_custom{owner,repository,url,query,monitor,prometheus_metric}`: declared, never set.
    Custom,
}

/// What each family is declared with: its name, help text and label names.
pub open spec fn family_meta(f: Family) -> (Seq<char>, Seq<char>, Seq<Seq<char>>) {
    match f {
        Family::Jobs => (
            "github_jobs"@,
            "Number of jobs"@,
            seq!["owner"@, "repository"@, "status"@, "workflow"@],
        ),
        Family::JobsQueueTime => (
            "github_jobs_queue_time"@,
            "Queue time of jobs"@,
            seq!["owner"@, "repository"@, "status"@, "workflow"@],
        ),
        Family::PullRequests => (
            "github_pull_requests"@,
            "Number of pull requests"@,
            seq!["owner"@, "repository"@, "status"@, "label"@],
        ),
        Family::RateLimit => ("github_rate_limit"@, "Rate limit"@, seq!["username"@]),
        Family::Custom => (
            "github_custom"@,
            "Custom metric"@,
            seq!["owner"@, "repository"@, "url"@, "query"@, "monitor"@, "prometheus_metric"@],
        ),
    }
}

/// The number of labels of each family.
pub open spec fn arity(f: Family) -> nat {
    family_meta(f).2.len()
}

/// Label names that are valid and pairwise distinct, checked from the last.
pub open spec fn distinct_valid_names(names: Seq<Seq<char>>) -> bool
    decreases names.len(),
{
    names.len() == 0 || (valid_ident(names.last(), false) && forall|i: int|
        0 <= i < names.len() - 1 ==> names[i] != names.last()) && distinct_valid_names(
        names.drop_last(),
    )
}

proof fn lemma_distinct_valid_names(names: Seq<Seq<char>>)
    requires
        distinct_valid_names(names),
    ensures
        valid_label_names(names),
    decreases names.len(),
{
    if names.len() > 0 {
        lemma_distinct_valid_names(names.drop_last());
        assert forall|i: int, j: int| 0 <= i < j < names.len() implies names[i] != names[j] by {
            if j < names.len() - 1 {
                assert(names.drop_last()[i] == names[i] && names.drop_last()[j] == names[j]);
            }
        }
        assert forall|i: int| 0 <= i < names.len() implies valid_ident(names[i], false) by {
            if i < names.len() - 1 {
                assert(names.drop_last()[i] == names[i]);
            }
        }
    }
}

/// Every family's declaration is one that the metrics crate accepts.
proof fn lemma_family_meta_valid(f: Family)
    ensures
        valid_ident(family_meta(f).0, true),
        family_meta(f).1.len() > 0,
        valid_label_names(family_meta(f).2),
{
    reveal_strlit("github_jobs");
    reveal_strlit("github_jobs_queue_time");
    reveal_strlit("github_pull_requests");
    reveal_strlit("github_rate_limit");
    reveal_strlit("github_custom");
    reveal_strlit("Number of jobs");
    reveal_strlit("Queue time of jobs");
    reveal_strlit("Number of pull requests");
    reveal_strlit("Rate limit");
    reveal_strlit("Custom metric");
    reveal_strlit("owner");
    reveal_strlit("repository");
    reveal_strlit("status");
    reveal_strlit("workflow");
    reveal_strlit("label");
    reveal_strlit("username");
    reveal_strlit("url");
    reveal_strlit("query");
    reveal_strlit("monitor");
    reveal_strlit("prometheus_metric");
    reveal_with_fuel(ident_tail, 23);
    reveal_with_fuel(distinct_valid_names, 7);
    assert(distinct_valid_names(family_meta(f).2));
    lemma_distinct_valid_names(family_meta(f).2);
}

/// Why the exposition could not be produced.
#[derive(Debug, Clone, Copy, PartialEq, Eq)]
pub enum MetricsError {
    /// The gathered families could not be written out.
    Encoding,
}

/// Declares a family as `f` is declared and registers it with a registry of
/// its own.
fn make_family(f: Family, name: &str, help: &str, labels: &Vec<&str>) -> (r: GaugeFamily)
    requires
        name@ == family_meta(f).0,
        help@ == family_meta(f).1,
        names_view(labels@) == family_meta(f).2,
    ensures
        meta_of(r) == family_meta(f),
        registered_of(r),
        gauges_of(r) == Gauges::empty(),
{
    proof {
        lemma_family_meta_valid(f);
    }
    let mut fam = match new_gauge_family(name, help, labels) {
        Ok(fam) => fam,
        Err(_) => unreached(),
    };
    match register_family(&mut fam) {
        Ok(()) => fam,
        Err(_) => unreached(),
    }
}

/// The store of gauges that the scheduler writes and the exposition endpoint
/// reads. Gauges are created on first write and overwritten afterwards.
pub struct MetricRegistry {
    jobs: GaugeFamily,
    jobs_queue_time: GaugeFamily,
    pull_requests: GaugeFamily,
    rate_limit: GaugeFamily,
    custom: GaugeFamily,
}

impl MetricRegistry {
    /// The family that `f` names.
    pub closed spec fn family(&self, f: Family) -> GaugeFamily {
        match f {
            Family::Jobs => self.jobs,
            Family::JobsQueueTime => self.jobs_queue_time,
            Family::PullRequests => self.pull_requests,
            Family::RateLimit => self.rate_limit,
            Family::Custom => self.custom,
        }
    }

    /// Each family carries its declaration and is registered.
    pub closed spec fn wf(&self) -> bool {
        forall|f: Family|
            meta_of(#[trigger] self.family(f)) == family_meta(f) && registered_of(self.family(f))
    }

    /// What one family holds.
    pub closed spec fn gauges(&self, f: Family) -> Gauges {
        gauges_of(self.family(f))
    }

    /// The text exposition of one family.
    pub open spec fn text(&self, f: Family) -> Seq<char> {
        family_text(family_meta(f).0, family_meta(f).1, family_meta(f).2, self.gauges(f))
    }

    /// The text exposition of every family, in order of name.
    pub open spec fn exposition(&self) -> Seq<char> {
        self.text(Family::Custom) + self.text(Family::Jobs) + self.text(Family::JobsQueueTime)
            + self.text(Family::PullRequests) + self.text(Family::RateLimit)
    }

    /// The value reported under the key of a label tuple of a family, if any
    /// was set.
    pub open spec fn value(&self, f: Family, labels: Seq<Seq<char>>) -> Option<i64> {
        gauge_value(self.gauges(f), labels)
    }

    /// Declares and registers the five families; every family starts empty.
    pub fn new() -> (r: MetricRegistry)
        ensures
            r.wf(),
            forall|f: Family| #[trigger] r.gauges(f) == Gauges::empty(),
    {
        let repo_labels: Vec<&str> = vec!["owner", "repository", "status", "workflow"];
        let pr_labels: Vec<&str> = vec!["owner", "repository", "status", "label"];
        let user_labels: Vec<&str> = vec!["username"];
        let custom_labels: Vec<&str> = vec![
            "owner",
            "repository",
            "url",
            "query",
            "monitor",
            "prometheus_metric",
        ];
        assert(names_view(repo_labels@) =~= family_meta(Family::Jobs).2);
        assert(names_view(pr_labels@) =~= family_meta(Family::PullRequests).2);
        assert(names_view(user_labels@) =~= family_meta(Family::RateLimit).2);
        assert(names_view(custom_labels@) =~= family_meta(Family::Custom).2);
        let jobs = make_family(Family::Jobs, "github_jobs", "Number of jobs", &repo_labels);
        let jobs_queue_time = make_family(
            Family::JobsQueueTime,
            "github_jobs_queue_time",
            "Queue time of jobs",
            &repo_labels,
        );
        let pull_requests = make_family(
            Family::PullRequests,
            "github_pull_requests",
            "Number of pull requests",
            &pr_labels,
        );
        let rate_limit = make_family(Family::RateLimit, "github_rate_limit", "Rate limit", &user_labels);
        let custom = make_family(Family::Custom, "github_custom", "Custom metric", &custom_labels);
        let r = MetricRegistry { jobs, jobs_queue_time, pull_requests, rate_limit, custom };
        assert forall|f: Family|
            meta_of(#[trigger] r.family(f)) == family_meta(f) && registered_of(r.family(f)) by {
            match f {
                Family::Jobs => {},
                Family::JobsQueueTime => {},
                Family::PullRequests => {},
                Family::RateLimit => {},
                Family::Custom => {},
            }
        }
        r
    }

    /// Sets the gauge of `f` for the label tuple `labels` to `value`,
    /// replacing any earlier value; other gauges keep theirs.
    pub fn set(&mut self, f: Family, labels: &Vec<String>, value: i64)
        requires
            old(self).wf(),
            labels@.len() == arity(f),
        ensures
            final(self).wf(),
            final(self).gauges(f) == after_set(old(self).gauges(f), label_view(labels@), value),
            forall|g: Family| g != f ==> #[trigger] final(self).gauges(g) == old(self).gauges(g),
    {
        proof {
            assert(meta_of(old(self).family(f)) == family_meta(f));
        }
        match f {
            Family::Jobs => set_gauge(&mut self.jobs, labels, value),
            Family::JobsQueueTime => set_gauge(&mut self.jobs_queue_time, labels, value),
            Family::PullRequests => set_gauge(&mut self.pull_requests, labels, value),
            Family::RateLimit => set_gauge(&mut self.rate_limit, labels, value),
            Family::Custom => set_gauge(&mut self.custom, labels, value),
        }
        proof {
            assert forall|g: Family|
                meta_of(#[trigger] self.family(g)) == family_meta(g) && registered_of(self.family(g)) by {
                assert(meta_of(old(self).family(g)) == family_meta(g));
            }
        }
    }

    /// The text exposition of every family, in order of name: for each that
    /// holds gauges, its help and type lines, then one line per label tuple
    /// with its value. Writing out these families does not fail.
    pub fn render(&self) -> (r: Result<String, MetricsError>)
        requires
            self.wf(),
        ensures
            r is Ok,
            r matches Ok(s) ==> s@ == self.exposition(),
    {
        proof {
            assert(registered_of(self.family(Family::Custom)));
            assert(registered_of(self.family(Family::Jobs)));
            assert(registered_of(self.family(Family::JobsQueueTime)));
            assert(registered_of(self.family(Family::PullRequests)));
            assert(registered_of(self.family(Family::RateLimit)));
        }
        let mut out = String::new();
        match encode_family(&self.custom) {
            Ok(s) => out.append(s.as_str()),
            Err(_) => { return Err(MetricsError::Encoding); },
        }
        match encode_family(&self.jobs) {
            Ok(s) => out.append(s.as_str()),
            Err(_) => { return Err(MetricsError::Encoding); },
        }
        match encode_family(&self.jobs_queue_time) {
            Ok(s) => out.append(s.as_str()),
            Err(_) => { return Err(MetricsError::Encoding); },
        }
        match encode_family(&self.pull_requests) {
            Ok(s) => out.append(s.as_str()),
            Err(_) => { return Err(MetricsError::Encoding); },
        }
        match encode_family(&self.rate_limit) {
            Ok(s) => out.append(s.as_str()),
            Err(_) => { return Err(MetricsError::Encoding); },
        }
        assert(out@ =~= self.exposition());
        Ok(out)
    }
}

/// Reading is idempotent: two renderings of registries whose families hold
/// the same gauges give the same text.
pub proof fn lemma_exposition_stable(a: MetricRegistry, b: MetricRegistry)
    requires
        forall|f: Family| #[trigger] a.gauges(f) == b.gauges(f),
    ensures
        a.exposition() == b.exposition(),
{
    assert(a.text(Family::Custom) == b.text(Family::Custom));
    assert(a.text(Family::Jobs) == b.text(Family::Jobs));
    assert(a.text(Family::JobsQueueTime) == b.text(Family::JobsQueueTime));
    assert(a.text(Family::PullRequests) == b.text(Family::PullRequests));
    assert(a.text(Family::RateLimit) == b.text(Family::RateLimit));
}

/// After a gauge is set, the registry reports the new value under the key of
/// that label tuple, whatever it held before: the last write wins. (Tuples
/// whose keys coincide share one gauge.)
pub proof fn lemma_last_write_wins(
    before: MetricRegistry,
    after: MetricRegistry,
    f: Family,
    labels: Seq<Seq<char>>,
    v: i64,
)
    requires
        after.gauges(f) == after_set(before.gauges(f), labels, v),
    ensures
        after.value(f, labels) == Some(v),
{
}

} // verus!
