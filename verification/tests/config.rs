use awair_exporter::config::{Config, Endpoint};

#[test]
fn endpoints_keep_name_url_and_order() {
    let c = Config::new(vec![
        Endpoint::new("kitchen".to_string(), "http://10.0.0.2/air-data/latest".to_string()),
        Endpoint::new("office".to_string(), "http://10.0.0.3/air-data/latest".to_string()),
    ]);
    let es = c.endpoints();
    assert_eq!(es.len(), 2);
    assert_eq!(es[0].name(), "kitchen");
    assert_eq!(es[0].url(), "http://10.0.0.2/air-data/latest");
    assert_eq!(es[1].name(), "office");
    let copy = es[1].clone();
    assert_eq!(copy.url(), "http://10.0.0.3/air-data/latest");
}
