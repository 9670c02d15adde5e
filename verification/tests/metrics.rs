use awair_exporter::exposition::{finish_exposition, start_exposition, Exposition};
use awair_exporter::metrics::{CounterKind, GaugeKind, MetricOptions, Registry};

fn new_registry() -> Registry {
    Registry::new(MetricOptions::new(String::new(), String::new())).unwrap()
}

fn render(registry: &Registry) -> String {
    let e = start_exposition(&Vec::new()).unwrap();
    let r = finish_exposition(e, &registry.gather());
    assert_eq!(r.status, 200);
    r.body
}

#[test]
fn fresh_registry_reports_nothing() {
    let registry = new_registry();
    assert_eq!(render(&registry), "");
}

#[test]
fn failures_are_counted_per_device() {
    let mut registry = new_registry();
    registry.failed("kitchen");
    registry.failed("kitchen");
    registry.failed("office");
    let text = render(&registry);
    assert!(text.contains("awair_scrape_failed_total{instance=\"kitchen\"} 2\n"));
    assert!(text.contains("awair_scrape_failed_total{instance=\"office\"} 1\n"));
    assert!(!text.contains("awair_scraped_total{"));
    assert!(text.contains("# HELP awair_scrape_failed_total The number of times requests to Awair failed so far\n"));
    assert!(text.contains("# TYPE awair_scrape_failed_total counter\n"));
}

#[test]
fn scrapes_are_counted_per_device() {
    let mut registry = new_registry();
    let children = registry.scrape("kitchen");
    assert_eq!(children.len(), 14);
    let text = render(&registry);
    assert!(text.contains("awair_scraped_total{instance=\"kitchen\"} 1\n"));
    assert!(text.contains("awair_score{instance=\"kitchen\"} 0\n"));
    assert!(!text.contains("awair_scrape_failed_total{"));
    registry.scrape("kitchen");
    assert!(render(&registry).contains("awair_scraped_total{instance=\"kitchen\"} 2\n"));
}

#[test]
fn gauges_follow_scraped_devices_only() {
    let mut registry = new_registry();
    registry.failed("office");
    registry.scrape("kitchen");
    let text = render(&registry);
    assert!(text.contains("awair_co2_ppm{instance=\"kitchen\"} 0\n"));
    assert!(!text.contains("awair_co2_ppm{instance=\"office\"}"));
    assert!(!text.contains("awair_scraped_total{instance=\"office\"}"));
}

#[test]
fn gauges_are_published_under_their_names() {
    let mut registry = new_registry();
    let children = registry.scrape("kitchen");
    children[GaugeKind::Score.index()].gauge.set(87.0);
    children[GaugeKind::Pm10Est.index()].gauge.set(2.5);
    let text = render(&registry);
    assert!(text.contains("awair_score{instance=\"kitchen\"} 87\n"));
    assert!(text.contains("awair_pm25_est{instance=\"kitchen\"} 2.5\n"));
    assert!(text.contains("# HELP awair_score Awair Score (0-100)\n"));
}

#[test]
fn every_metric_has_its_own_name() {
    let gauges = [
        GaugeKind::Score,
        GaugeKind::DewPoint,
        GaugeKind::Temp,
        GaugeKind::Humid,
        GaugeKind::AbsHumid,
        GaugeKind::Co2,
        GaugeKind::Co2Est,
        GaugeKind::Co2EstBaseline,
        GaugeKind::Voc,
        GaugeKind::VocBaseline,
        GaugeKind::VocH2Raw,
        GaugeKind::VocEthanolRaw,
        GaugeKind::Pm25,
        GaugeKind::Pm10Est,
    ];
    let mut names: Vec<&str> = gauges.iter().map(|g| g.name()).collect();
    names.push(CounterKind::Scraped.name());
    names.push(CounterKind::Failed.name());
    let mut sorted = names.clone();
    sorted.sort();
    sorted.dedup();
    assert_eq!(sorted.len(), 16);
    assert_eq!(GaugeKind::Temp.name(), "awair_temperature_celcius");
    assert_eq!(GaugeKind::Pm25.help(), "Particulate matter less than 2.5 microns in diameter (µg/m^3)");
    assert_eq!(CounterKind::Failed.help(), "The number of times requests to Awair failed so far");
}

#[test]
fn invalid_namespace_is_refused() {
    // A namespace that makes every name invalid: creating the first gauge fails.
    let opts = MetricOptions::new("bad-namespace".to_string(), String::new());
    assert!(Registry::new(opts).is_err());
}

#[test]
fn a_namespace_prefixes_every_name() {
    let mut registry = Registry::new(MetricOptions::new("home".to_string(), String::new())).unwrap();
    registry.failed("kitchen");
    let text = render(&registry);
    assert!(text.contains("home_awair_scrape_failed_total{instance=\"kitchen\"} 1\n"));
    let _ = Exposition::new();
}

#[test]
fn namespace_and_subsystem_are_joined() {
    let mut registry =
        Registry::new(MetricOptions::new("home".to_string(), "air".to_string())).unwrap();
    registry.scrape("office");
    let text = render(&registry);
    assert!(text.contains("home_air_awair_scraped_total{instance=\"office\"} 1\n"));
}

#[test]
fn registries_are_independent() {
    let mut a = new_registry();
    let b = new_registry();
    a.failed("kitchen");
    assert_eq!(render(&b), "");
    assert!(render(&a).contains("awair_scrape_failed_total{instance=\"kitchen\"} 1\n"));
}

#[test]
fn every_help_text_is_published() {
    let mut registry = new_registry();
    registry.scrape("k");
    let text = render(&registry);
    assert!(text.contains("# HELP awair_scraped_total The number of times the Awair has been scraped so far\n"));
}

#[test]
fn const_labels_are_published() {
    let opts = MetricOptions::new(String::new(), String::new())
        .const_label("site".to_string(), "home".to_string());
    let mut registry = Registry::new(opts).unwrap();
    registry.failed("k");
    registry.scrape("k");
    let text = render(&registry);
    assert!(text.contains("awair_scrape_failed_total{instance=\"k\",site=\"home\"} 1\n"));
    assert!(text.contains("awair_score{instance=\"k\",site=\"home\"} 0\n"));
}

#[test]
fn a_later_const_label_replaces_an_earlier_one() {
    let opts = MetricOptions::new(String::new(), String::new())
        .const_label("site".to_string(), "a".to_string())
        .const_label("site".to_string(), "b".to_string());
    let mut registry = Registry::new(opts).unwrap();
    registry.scrape("k");
    let text = render(&registry);
    assert!(text.contains("awair_scraped_total{instance=\"k\",site=\"b\"} 1\n"));
    assert!(!text.contains("site=\"a\""));
}

#[test]
fn invalid_const_label_name_is_refused() {
    let opts = MetricOptions::new(String::new(), String::new())
        .const_label("bad-name".to_string(), "x".to_string());
    assert!(Registry::new(opts).is_err());
}
