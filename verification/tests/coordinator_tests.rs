use geoip_filter::config::FilterCfg;
use geoip_filter::coordinator::{FetchOutcome, RefreshCoordinator};
use geoip_filter::store::SharedStore;

fn configured(url: &str) -> RefreshCoordinator {
    let mut c = RefreshCoordinator::new();
    assert!(c.on_vm_start());
    let cfg = FilterCfg::new(url.to_string(), "mmdb_cluster".to_string());
    assert!(c.on_configure(Some(cfg)));
    c
}

#[test]
fn configure_without_config_is_fatal() {
    let mut c = RefreshCoordinator::new();
    assert!(!c.on_configure(None));
}

#[test]
fn tick_plans_a_fetch_from_the_url() {
    let mut c = configured("https://downloads.example.com/GeoLite2-Country.mmdb");
    let plan = c.on_tick().expect("a fetch should be planned");
    assert_eq!(plan.cluster, "mmdb_cluster");
    assert_eq!(plan.path, "/GeoLite2-Country.mmdb");
    assert_eq!(plan.authority, "downloads.example.com");
    assert_eq!(plan.timeout_ms, 5000);
}

#[test]
fn url_without_host_falls_back_to_well_known_authority() {
    let mut c = configured("unix:/run/mmdb.socket");
    let plan = c.on_tick().expect("the url parses");
    assert_eq!(plan.authority, "mmdb");
    assert_eq!(plan.path, "/run/mmdb.socket");
}

#[test]
fn malformed_url_plans_nothing() {
    let mut c = configured("not a url at all");
    assert!(c.on_tick().is_none());
}

#[test]
fn only_one_fetch_in_flight() {
    let mut c = configured("https://downloads.example.com/GeoLite2-Country.mmdb");
    let plan = c.on_tick();
    assert!(plan.is_some());
    c.fetch_dispatched(7);
    assert!(c.on_tick().is_none());
    let mut store = SharedStore::new();
    let _ = c.on_fetch_response(&mut store, None);
    assert!(c.on_tick().is_some());
}

#[test]
fn nonempty_body_is_published() {
    let mut c = configured("https://downloads.example.com/GeoLite2-Country.mmdb");
    let mut store = SharedStore::new();
    c.fetch_dispatched(1);
    let outcome = c.on_fetch_response(&mut store, Some(vec![5, 6, 7]));
    assert!(matches!(outcome, FetchOutcome::Published));
    let (value, _) = store.get();
    assert_eq!(value.unwrap().as_slice(), &[5, 6, 7]);
}

#[test]
fn empty_body_leaves_store_untouched() {
    let mut c = configured("https://downloads.example.com/GeoLite2-Country.mmdb");
    let mut store = SharedStore::new();
    assert!(store.set(vec![42], None).is_ok());
    let (_, version_before) = store.get();
    c.fetch_dispatched(1);
    let outcome = c.on_fetch_response(&mut store, Some(Vec::new()));
    assert!(matches!(outcome, FetchOutcome::EmptyBody));
    let (value, version_after) = store.get();
    assert_eq!(value.unwrap().as_slice(), &[42]);
    assert_eq!(version_before, version_after);
}

#[test]
fn missing_body_leaves_store_untouched() {
    let mut c = configured("https://downloads.example.com/GeoLite2-Country.mmdb");
    let mut store = SharedStore::new();
    c.fetch_dispatched(1);
    let outcome = c.on_fetch_response(&mut store, None);
    assert!(matches!(outcome, FetchOutcome::NoBody));
    let (value, _) = store.get();
    assert!(value.is_none());
}
