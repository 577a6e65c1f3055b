//! Service discovery for a metrics scraper: resolves container labels into
//! scrape targets, renders them as a JSON document, and decides when the
//! published file must be replaced.
pub mod document;
pub mod labels;
pub mod publish;
pub mod types;

pub use document::{render_targets, serialize_targets};
pub use labels::Labels;
pub use publish::PublishedSnapshot;
pub use types::{
    build_targets, get_config_docker_compose_service, get_config_hostname, get_config_job,
    get_config_metrics_path, get_config_port, get_config_scheme, get_container_hostname,
    get_container_name, get_scrape_enabled, maybe_add_container_info, ContainerObservation,
    InspectedContainer, PromConfig, PromConfigLabel,
};
