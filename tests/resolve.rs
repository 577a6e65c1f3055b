use docker_sd::{
    get_config_docker_compose_service, get_config_hostname, get_config_job,
    get_config_metrics_path, get_config_port, get_config_scheme, get_container_hostname,
    get_container_name, get_scrape_enabled, maybe_add_container_info, ContainerObservation,
    InspectedContainer, Labels, PromConfig, PromConfigLabel,
};

fn labels(pairs: &[(&str, &str)]) -> Labels {
    let mut l = Labels::new();
    for (k, v) in pairs {
        l.insert(k.to_string(), v.to_string());
    }
    l
}

fn container(name: &str, hostname: &str, pairs: &[(&str, &str)]) -> ContainerObservation {
    ContainerObservation {
        name: name.to_string(),
        hostname: hostname.to_string(),
        labels: labels(pairs),
    }
}

#[test]
fn web1_with_port_label() {
    let c = container("web1", "abc123", &[
        ("prometheus-scrape.enabled", "true"),
        ("prometheus-scrape.port", "8080"),
    ]);
    let r = maybe_add_container_info(&c).expect("record");
    assert_eq!(r.labels.job, "web1");
    assert_eq!(r.labels.name, "web1");
    assert_eq!(r.labels.id, "abc123");
    assert_eq!(r.targets, vec!["web1:8080".to_string()]);
    assert_eq!(r.labels.scheme, "http");
    assert_eq!(r.labels.metrics_path, "/metrics");
    assert_eq!(r.labels.com_docker_compose_service, "");
}

#[test]
fn api_with_hostname_and_job_labels() {
    let c = container("api", "", &[
        ("prometheus-scrape.enabled", "true"),
        ("prometheus-scrape.hostname", "10.0.0.5"),
        ("prometheus-scrape.job_name", "apisvc"),
    ]);
    let r = maybe_add_container_info(&c).expect("record");
    assert_eq!(r.labels.job, "apisvc");
    assert_eq!(r.labels.name, "api");
    assert_eq!(r.targets, vec!["10.0.0.5:9090".to_string()]);
}

#[test]
fn disabled_containers_yield_nothing() {
    assert!(maybe_add_container_info(&container("a", "", &[])).is_none());
    for v in ["false", "True", "TRUE", "yes", "", " true"] {
        let c = container("a", "", &[("prometheus-scrape.enabled", v), ("prometheus-scrape.port", "1")]);
        assert!(maybe_add_container_info(&c).is_none(), "value {:?}", v);
    }
    let c = container("a", "", &[("prometheus-scrape.port", "8080")]);
    assert!(maybe_add_container_info(&c).is_none());
}

#[test]
fn hostname_label_beats_ip_flag() {
    let c = container("db", "", &[
        ("prometheus-scrape.enabled", "true"),
        ("prometheus-scrape.ip_as_hostname", "true"),
        ("prometheus-scrape.hostname", "db.internal"),
    ]);
    let r = maybe_add_container_info(&c).expect("record");
    assert_eq!(r.targets, vec!["db.internal:9090".to_string()]);
}

#[test]
fn ip_flag_uses_its_own_value_as_host() {
    let l = labels(&[("prometheus-scrape.ip_as_hostname", "true")]);
    assert_eq!(get_config_hostname(&l, "svc".to_string()), "true");
    let l = labels(&[("prometheus-scrape.ip_as_hostname", "false")]);
    assert_eq!(get_config_hostname(&l, "svc".to_string()), "svc");
    assert_eq!(get_config_hostname(&Labels::new(), "svc".to_string()), "svc");
}

#[test]
fn enabled_only_uses_defaults() {
    let c = container("worker", "h1", &[
        ("prometheus-scrape.enabled", "true"),
        ("com.docker.compose.service", "queue"),
    ]);
    let r = maybe_add_container_info(&c).expect("record");
    assert_eq!(r.labels.job, "worker");
    assert_eq!(r.labels.scheme, "http");
    assert_eq!(r.labels.metrics_path, "/metrics");
    assert_eq!(r.labels.com_docker_compose_service, "queue");
    assert_eq!(r.targets, vec!["worker:9090".to_string()]);
}

#[test]
fn empty_job_label_falls_back_to_name() {
    let c = container("cache", "", &[
        ("prometheus-scrape.enabled", "true"),
        ("prometheus-scrape.job_name", ""),
        ("prometheus-scrape.scheme", "https"),
        ("prometheus-scrape.metrics_path", "/stats"),
        ("prometheus-scrape.port", "not-a-port"),
    ]);
    let r = maybe_add_container_info(&c).expect("record");
    assert_eq!(r.labels.job, "cache");
    assert_eq!(r.labels.scheme, "https");
    assert_eq!(r.labels.metrics_path, "/stats");
    assert_eq!(r.targets, vec!["cache:not-a-port".to_string()]);
}

#[test]
fn label_getters() {
    let l = labels(&[
        ("prometheus-scrape.enabled", "true"),
        ("prometheus-scrape.job_name", "j"),
        ("prometheus-scrape.port", "1234"),
        ("prometheus-scrape.scheme", "https"),
        ("prometheus-scrape.metrics_path", "/m"),
        ("com.docker.compose.service", "svc"),
    ]);
    assert_eq!(get_scrape_enabled(&l), Some(true));
    assert_eq!(get_config_job(&l), "j");
    assert_eq!(get_config_port(&l), "1234");
    assert_eq!(get_config_scheme(&l), "https");
    assert_eq!(get_config_metrics_path(&l), "/m");
    assert_eq!(get_config_docker_compose_service(&l), "svc");

    let e = Labels::new();
    assert_eq!(get_scrape_enabled(&e), None);
    assert_eq!(get_config_job(&e), "");
    assert_eq!(get_config_port(&e), "9090");
    assert_eq!(get_config_scheme(&e), "http");
    assert_eq!(get_config_metrics_path(&e), "/metrics");
    assert_eq!(get_config_docker_compose_service(&e), "");

    let off = labels(&[("prometheus-scrape.enabled", "no")]);
    assert_eq!(get_scrape_enabled(&off), Some(false));
}

#[test]
fn later_label_replaces_earlier() {
    let mut l = Labels::new();
    l.insert("prometheus-scrape.port".to_string(), "1".to_string());
    l.insert("prometheus-scrape.port".to_string(), "2".to_string());
    assert_eq!(get_config_port(&l), "2");
    assert_eq!(l.get(&"prometheus-scrape.port".to_string()).map(|s| s.as_str()), Some("2"));
    assert_eq!(l.get(&"other".to_string()), None);
}

#[test]
fn container_name_and_hostname() {
    let c = InspectedContainer { name: Some("/web1".to_string()), hostname: Some("h".to_string()) };
    assert_eq!(get_container_name(&c), "web1");
    assert_eq!(get_container_hostname(&c), "h");
    let c = InspectedContainer { name: Some("web1".to_string()), hostname: None };
    assert_eq!(get_container_name(&c), "web1");
    assert_eq!(get_container_hostname(&c), "");
    let c = InspectedContainer { name: Some("/".to_string()), hostname: None };
    assert_eq!(get_container_name(&c), "");
    let c = InspectedContainer { name: None, hostname: None };
    assert_eq!(get_container_name(&c), "");
    let c = InspectedContainer { name: Some("//x".to_string()), hostname: None };
    assert_eq!(get_container_name(&c), "/x");
}

#[test]
fn observation_from_inspected_container() {
    let c = InspectedContainer { name: Some("/api".to_string()), hostname: Some("f00d".to_string()) };
    let o = ContainerObservation::new(&c, labels(&[("prometheus-scrape.enabled", "true")]));
    assert_eq!(o.name, "api");
    assert_eq!(o.hostname, "f00d");
    let r = maybe_add_container_info(&o).expect("record");
    assert_eq!(r.labels.id, "f00d");
    assert_eq!(r.targets, vec!["api:9090".to_string()]);
}

#[test]
fn default_records_are_empty() {
    let l = PromConfigLabel::default();
    assert_eq!(l.name, "");
    assert_eq!(l.metrics_path, "");
    let p = PromConfig::default();
    assert!(p.targets.is_empty());
    assert_eq!(p.labels.job, "");
    let q = p.clone();
    assert_eq!(q.labels.id, "");
}

#[test]
fn new_records_are_empty() {
    let l = PromConfigLabel::new();
    assert_eq!(l.job, "");
    assert_eq!(l.com_docker_compose_service, "");
    let p = PromConfig::new();
    assert!(p.targets.is_empty());
    assert_eq!(p.labels.scheme, "");
}
