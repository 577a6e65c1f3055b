use crate::labels::Labels;
use vstd::prelude::*;
use vstd::string::*;

verus! {

/// The labels attached to one scrape target in the published document.
#[derive(Clone, Debug)]
pub struct PromConfigLabel {
    pub job: String,
    pub name: String,
    pub id: String,
    pub scheme: String,
    pub metrics_path: String,
    pub com_docker_compose_service: String,
}

/// One scrape target record: its labels and its `host:port` targets.
#[derive(Clone, Debug)]
pub struct PromConfig {
    pub labels: PromConfigLabel,
    pub targets: Vec<String>,
}

/// What a target record means: every string as its characters.
pub struct TargetModel {
    pub job: Seq<char>,
    pub name: Seq<char>,
    pub id: Seq<char>,
    pub scheme: Seq<char>,
    pub metrics_path: Seq<char>,
    pub compose_service: Seq<char>,
    pub targets: Seq<Seq<char>>,
}

impl View for PromConfig {
    type V = TargetModel;

    open spec fn view(&self) -> TargetModel {
        TargetModel {
            job: self.labels.job@,
            name: self.labels.name@,
            id: self.labels.id@,
            scheme: self.labels.scheme@,
            metrics_path: self.labels.metrics_path@,
            compose_service: self.labels.com_docker_compose_service@,
            targets: self.targets@.map_values(|t: String| t@),
        }
    }
}

impl Default for PromConfigLabel {
    /// Labels with every field empty.
    fn default() -> (r: PromConfigLabel)
        ensures
            r.job@ == Seq::<char>::empty(),
            r.name@ == Seq::<char>::empty(),
            r.id@ == Seq::<char>::empty(),
            r.scheme@ == Seq::<char>::empty(),
            r.metrics_path@ == Seq::<char>::empty(),
            r.com_docker_compose_service@ == Seq::<char>::empty(),
    {
        PromConfigLabel {
            job: String::new(),
            name: String::new(),
            id: String::new(),
            scheme: String::new(),
            metrics_path: String::new(),
            com_docker_compose_service: String::new(),
        }
    }
}

impl PromConfigLabel {
    /// Labels with every field empty.
    pub fn new() -> (r: PromConfigLabel)
        ensures
            r.job@ == Seq::<char>::empty(),
            r.name@ == Seq::<char>::empty(),
            r.id@ == Seq::<char>::empty(),
            r.scheme@ == Seq::<char>::empty(),
            r.metrics_path@ == Seq::<char>::empty(),
            r.com_docker_compose_service@ == Seq::<char>::empty(),
    {
        PromConfigLabel::default()
    }
}

impl Default for PromConfig {
    /// A record with empty labels and no targets.
    fn default() -> (r: PromConfig)
        ensures
            r@ == (TargetModel {
                job: Seq::empty(),
                name: Seq::empty(),
                id: Seq::empty(),
                scheme: Seq::empty(),
                metrics_path: Seq::empty(),
                compose_service: Seq::empty(),
                targets: Seq::empty(),
            }),
    {
        let r = PromConfig { labels: PromConfigLabel::new(), targets: Vec::new() };
        assert(r@.targets =~= Seq::<Seq<char>>::empty());
        r
    }
}

impl PromConfig {
    /// A record with empty labels and no targets.
    pub fn new() -> (r: PromConfig)
        ensures
            r@ == (TargetModel {
                job: Seq::empty(),
                name: Seq::empty(),
                id: Seq::empty(),
                scheme: Seq::empty(),
                metrics_path: Seq::empty(),
                compose_service: Seq::empty(),
                targets: Seq::empty(),
            }),
    {
        PromConfig::default()
    }
}

/// The opt-in label: the container is scraped only when it is `"true"`.
pub open spec fn enabled_key() -> Seq<char> {
    "prometheus-scrape.enabled"@
}

/// The label that names the scrape job.
pub open spec fn job_key() -> Seq<char> {
    "prometheus-scrape.job_name"@
}

/// The label that gives the target's port.
pub open spec fn port_key() -> Seq<char> {
    "prometheus-scrape.port"@
}

/// The label that gives the scrape scheme.
pub open spec fn scheme_key() -> Seq<char> {
    "prometheus-scrape.scheme"@
}

/// The label that gives the metrics path.
pub open spec fn metrics_path_key() -> Seq<char> {
    "prometheus-scrape.metrics_path"@
}

/// The label that compose sets to the service's name.
pub open spec fn compose_service_key() -> Seq<char> {
    "com.docker.compose.service"@
}

/// The label that gives the target's host.
pub open spec fn hostname_key() -> Seq<char> {
    "prometheus-scrape.hostname"@
}

/// The flag label that, set to `"true"`, stands in as the target's host.
pub open spec fn ip_as_hostname_key() -> Seq<char> {
    "prometheus-scrape.ip_as_hostname"@
}

/// The value of `key` in `labels`, or `default` where the key is absent.
pub open spec fn label_or(
    labels: Map<Seq<char>, Seq<char>>,
    key: Seq<char>,
    default: Seq<char>,
) -> Seq<char> {
    if labels.contains_key(key) {
        labels[key]
    } else {
        default
    }
}

/// Whether the labels opt the container in.
pub open spec fn scrape_enabled(labels: Map<Seq<char>, Seq<char>>) -> bool {
    labels.contains_key(enabled_key()) && labels[enabled_key()] == "true"@
}

/// The host that the target points at: the hostname label, else the
/// ip-as-hostname flag's own value when it is `"true"`, else the container name.
pub open spec fn target_host(labels: Map<Seq<char>, Seq<char>>, cname: Seq<char>) -> Seq<char> {
    if labels.contains_key(hostname_key()) {
        labels[hostname_key()]
    } else if labels.contains_key(ip_as_hostname_key()) && labels[ip_as_hostname_key()]
        == "true"@ {
        labels[ip_as_hostname_key()]
    } else {
        cname
    }
}

/// The job name: the job label when present and non-empty, else the container name.
pub open spec fn job_name(labels: Map<Seq<char>, Seq<char>>, cname: Seq<char>) -> Seq<char> {
    if labels.contains_key(job_key()) && labels[job_key()].len() > 0 {
        labels[job_key()]
    } else {
        cname
    }
}

/// The single `host:port` target of a container.
pub open spec fn target_of(labels: Map<Seq<char>, Seq<char>>, cname: Seq<char>) -> Seq<char> {
    target_host(labels, cname) + ":"@ + label_or(labels, port_key(), "9090"@)
}

/// Reads `prometheus-scrape.enabled`: `None` when absent, else whether it is `"true"`.
pub fn get_scrape_enabled(hash: &Labels) -> (r: Option<bool>)
    ensures
        r == (if hash@.contains_key(enabled_key()) {
            Some(hash@[enabled_key()] == "true"@)
        } else {
            None
        }),
{
    let key = String::from_str("prometheus-scrape.enabled");
    match hash.get(&key) {
        Some(v) => {
            let t = String::from_str("true");
            Some(*v == t)
        },
        None => None,
    }
}

/// The value of `key` in `hash`, or a copy of `default`.
fn label_or_default(hash: &Labels, key: &String, default: &str) -> (r: String)
    ensures
        r@ == label_or(hash@, key@, default@),
{
    match hash.get(key) {
        Some(v) => v.clone(),
        None => String::from_str(default),
    }
}

/// The job-name label, or the empty string.
pub fn get_config_job(hash: &Labels) -> (r: String)
    ensures
        r@ == label_or(hash@, job_key(), Seq::empty()),
{
    let key = String::from_str("prometheus-scrape.job_name");
    let r = label_or_default(hash, &key, "");
    proof {
        reveal_strlit("");
    }
    r
}

/// The port label, or `"9090"`.
pub fn get_config_port(hash: &Labels) -> (r: String)
    ensures
        r@ == label_or(hash@, port_key(), "9090"@),
{
    let key = String::from_str("prometheus-scrape.port");
    label_or_default(hash, &key, "9090")
}

/// The scheme label, or `"http"`.
pub fn get_config_scheme(hash: &Labels) -> (r: String)
    ensures
        r@ == label_or(hash@, scheme_key(), "http"@),
{
    let key = String::from_str("prometheus-scrape.scheme");
    label_or_default(hash, &key, "http")
}

/// The metrics-path label, or `"/metrics"`.
pub fn get_config_metrics_path(hash: &Labels) -> (r: String)
    ensures
        r@ == label_or(hash@, metrics_path_key(), "/metrics"@),
{
    let key = String::from_str("prometheus-scrape.metrics_path");
    label_or_default(hash, &key, "/metrics")
}

/// The compose-service label, or the empty string.
pub fn get_config_docker_compose_service(hash: &Labels) -> (r: String)
    ensures
        r@ == label_or(hash@, compose_service_key(), Seq::empty()),
{
    let key = String::from_str("com.docker.compose.service");
    let r = label_or_default(hash, &key, "");
    proof {
        reveal_strlit("");
    }
    r
}

/// The host of the target: `prometheus-scrape.hostname` first, then
/// `prometheus-scrape.ip_as_hostname` when it is `"true"`, else `cname`.
pub fn get_config_hostname(hash: &Labels, cname: String) -> (r: String)
    ensures
        r@ == target_host(hash@, cname@),
{
    let hostname_key = String::from_str("prometheus-scrape.hostname");
    let ip_key = String::from_str("prometheus-scrape.ip_as_hostname");
    if let Some(new_hostname) = hash.get(&hostname_key) {
        return new_hostname.clone();
    }
    if let Some(new_ip_hostname) = hash.get(&ip_key) {
        let t = String::from_str("true");
        if *new_ip_hostname == t {
            return new_ip_hostname.clone();
        }
    }
    cname
}

/// What the container runtime reports of one container, as plain values.
pub struct InspectedContainer {
    /// The name as the runtime gives it, with a leading `/`.
    pub name: Option<String>,
    /// The hostname from the container's configuration.
    pub hostname: Option<String>,
}

/// The container name without its leading `/`, if it has one; empty when
/// the runtime reports no name.
pub open spec fn normalized_name(raw: Option<String>) -> Seq<char> {
    match raw {
        Some(x) => if x@.len() > 0 && x@[0] == '/' {
            x@.subrange(1, x@.len() as int)
        } else {
            x@
        },
        None => Seq::empty(),
    }
}

/// The configured hostname, or empty when the runtime reports none.
pub open spec fn reported_hostname(raw: Option<String>) -> Seq<char> {
    match raw {
        Some(x) => x@,
        None => Seq::empty(),
    }
}

/// The container's name with the leading `/` stripped.
pub fn get_container_name(ctr: &InspectedContainer) -> (r: String)
    ensures
        r@ == normalized_name(ctr.name),
{
    match &ctr.name {
        Some(x) => {
            let s = x.as_str();
            let n = s.unicode_len();
            if n > 0 && s.get_char(0) == '/' {
                s.substring_char(1, n).to_owned()
            } else {
                x.clone()
            }
        },
        None => String::new(),
    }
}

/// The hostname from the container's configuration, or the empty string.
pub fn get_container_hostname(ctr: &InspectedContainer) -> (r: String)
    ensures
        r@ == reported_hostname(ctr.hostname),
{
    match &ctr.hostname {
        Some(x) => x.clone(),
        None => String::new(),
    }
}

/// One running container as the resolver sees it.
pub struct ContainerObservation {
    /// The normalized container name.
    pub name: String,
    /// The hostname the runtime reports; may be empty.
    pub hostname: String,
    pub labels: Labels,
}

/// What an observation means.
pub struct ObservationModel {
    pub name: Seq<char>,
    pub hostname: Seq<char>,
    pub labels: Map<Seq<char>, Seq<char>>,
}

impl View for ContainerObservation {
    type V = ObservationModel;

    open spec fn view(&self) -> ObservationModel {
        ObservationModel { name: self.name@, hostname: self.hostname@, labels: self.labels@ }
    }
}

impl ContainerObservation {
    /// Builds the observation of an inspected container carrying `labels`.
    pub fn new(ctr: &InspectedContainer, labels: Labels) -> (r: ContainerObservation)
        ensures
            r.name@ == normalized_name(ctr.name),
            r.hostname@ == reported_hostname(ctr.hostname),
            r.labels@ == labels@,
    {
        ContainerObservation {
            name: get_container_name(ctr),
            hostname: get_container_hostname(ctr),
            labels,
        }
    }
}

/// The record a container yields: none unless it opted in, else the labels
/// resolved with their defaults and a single `host:port` target.
pub open spec fn resolve_spec(c: ObservationModel) -> Option<TargetModel> {
    if !scrape_enabled(c.labels) {
        None
    } else {
        Some(
            TargetModel {
                job: job_name(c.labels, c.name),
                name: c.name,
                id: c.hostname,
                scheme: label_or(c.labels, scheme_key(), "http"@),
                metrics_path: label_or(c.labels, metrics_path_key(), "/metrics"@),
                compose_service: label_or(c.labels, compose_service_key(), Seq::empty()),
                targets: seq![target_of(c.labels, c.name)],
            },
        )
    }
}

/// Resolves one container into its target record, or `None` when it has not
/// opted in.
pub fn maybe_add_container_info(container: &ContainerObservation) -> (r: Option<PromConfig>)
    ensures
        match r {
            Some(p) => resolve_spec(container@) == Some(p@),
            None => resolve_spec(container@) is None,
        },
{
    let labels = &container.labels;
    match get_scrape_enabled(labels) {
        Some(true) => {},
        _ => return None,
    }
    let mut job = container.name.clone();
    let job_label = get_config_job(labels);
    if !job_label.as_str().is_empty() {
        job = job_label;
    }
    let port = get_config_port(labels);
    let mut target = get_config_hostname(labels, container.name.clone());
    target.append(":");
    target.append(port.as_str());
    let mut targets: Vec<String> = Vec::new();
    targets.push(target);
    let r = PromConfig {
        labels: PromConfigLabel {
            job,
            name: container.name.clone(),
            id: container.hostname.clone(),
            scheme: get_config_scheme(labels),
            metrics_path: get_config_metrics_path(labels),
            com_docker_compose_service: get_config_docker_compose_service(labels),
        },
        targets,
    };
    assert(r@.targets =~= seq![target_of(container.labels@, container.name@)]);
    Some(r)
}

/// The views of a list of records.
pub open spec fn records_view(v: Seq<PromConfig>) -> Seq<TargetModel> {
    v.map_values(|p: PromConfig| p@)
}

/// The views of a list of observations.
pub open spec fn observations_view(v: Seq<ContainerObservation>) -> Seq<ObservationModel> {
    v.map_values(|c: ContainerObservation| c@)
}

/// The records of a list of containers, in the containers' order, leaving out
/// those that yield none.
pub open spec fn targets_spec(obs: Seq<ObservationModel>) -> Seq<TargetModel>
    decreases obs.len(),
{
    if obs.len() == 0 {
        Seq::empty()
    } else {
        let rest = targets_spec(obs.drop_last());
        match resolve_spec(obs.last()) {
            Some(t) => rest.push(t),
            None => rest,
        }
    }
}

/// Resolves every container, in order, and keeps the records that exist.
pub fn build_targets(containers: &Vec<ContainerObservation>) -> (r: Vec<PromConfig>)
    ensures
        records_view(r@) == targets_spec(observations_view(containers@)),
{
    let ghost obs = observations_view(containers@);
    let mut out: Vec<PromConfig> = Vec::new();
    let mut i: usize = 0;
    assert(records_view(out@) =~= targets_spec(obs.take(0)));
    while i < containers.len()
        invariant
            i <= containers@.len(),
            obs == observations_view(containers@),
            records_view(out@) == targets_spec(obs.take(i as int)),
        decreases containers@.len() - i,
    {
        assert(obs.take(i + 1).drop_last() =~= obs.take(i as int));
        assert(obs.take(i + 1).last() == containers@[i as int]@);
        let ghost before = out@;
        match maybe_add_container_info(&containers[i]) {
            Some(p) => {
                out.push(p);
                assert(records_view(out@) =~= records_view(before).push(p@));
            },
            None => {},
        }
        i = i + 1;
    }
    assert(obs.take(i as int) =~= obs);
    out
}

/// A container that has not set the opt-in label to exactly `"true"` yields
/// no record.
pub proof fn lemma_disabled_yields_nothing(c: ObservationModel)
    requires
        !c.labels.contains_key(enabled_key()) || c.labels[enabled_key()] != "true"@,
    ensures
        resolve_spec(c) is None,
{
}

/// The hostname label, when set, is the target's host whatever the other
/// host-related labels say.
pub proof fn lemma_hostname_label_wins(c: ObservationModel)
    requires
        c.labels.contains_key(hostname_key()),
    ensures
        target_host(c.labels, c.name) == c.labels[hostname_key()],
        scrape_enabled(c.labels) ==> (resolve_spec(c) matches Some(t) && t.targets == seq![
            c.labels[hostname_key()] + ":"@ + label_or(c.labels, port_key(), "9090"@),
        ]),
{
}

/// An opted-in container with no other scrape label gets the defaults: scheme
/// `http`, path `/metrics`, and the target `<name>:9090` under its own name.
pub proof fn lemma_defaults(c: ObservationModel)
    requires
        scrape_enabled(c.labels),
        !c.labels.contains_key(job_key()),
        !c.labels.contains_key(port_key()),
        !c.labels.contains_key(scheme_key()),
        !c.labels.contains_key(metrics_path_key()),
        !c.labels.contains_key(hostname_key()),
        !c.labels.contains_key(ip_as_hostname_key()),
    ensures
        resolve_spec(c) matches Some(t) && t.job == c.name && t.scheme == "http"@ && t.metrics_path
            == "/metrics"@ && t.targets == seq![c.name + ":"@ + "9090"@],
{
}

/// The records of two lists of containers, one after the other, are the
/// records of the first followed by those of the second: the output keeps
/// the containers' order.
pub proof fn lemma_targets_keep_order(a: Seq<ObservationModel>, b: Seq<ObservationModel>)
    ensures
        targets_spec(a + b) == targets_spec(a) + targets_spec(b),
    decreases b.len(),
{
    if b.len() == 0 {
        assert(a + b =~= a);
        assert(targets_spec(a) + targets_spec(b) =~= targets_spec(a));
    } else {
        assert((a + b).drop_last() =~= a + b.drop_last());
        lemma_targets_keep_order(a, b.drop_last());
        match resolve_spec(b.last()) {
            Some(t) => {
                assert(targets_spec(a) + targets_spec(b.drop_last()).push(t) =~= (targets_spec(a)
                    + targets_spec(b.drop_last())).push(t));
            },
            None => {},
        }
    }
}

/// Containers none of which opted in yield no records.
pub proof fn lemma_none_enabled_yields_nothing(obs: Seq<ObservationModel>)
    requires
        forall|i: int| 0 <= i < obs.len() ==> !scrape_enabled(#[trigger] obs[i].labels),
    ensures
        targets_spec(obs) == Seq::<TargetModel>::empty(),
    decreases obs.len(),
{
    if obs.len() > 0 {
        assert(!scrape_enabled(obs[obs.len() - 1].labels));
        lemma_none_enabled_yields_nothing(obs.drop_last());
    }
}

} // verus!
