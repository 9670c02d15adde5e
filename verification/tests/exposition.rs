use awair_exporter::exposition::{
    encode_would_panic, begin_exposition, finish_exposition, internal_error, respond, start_exposition, text_response,
    Exposition,
};
use awair_exporter::metrics::{MetricOptions, Registry};

#[test]
fn internal_error_answer() {
    let r = internal_error();
    assert_eq!(r.status, 500);
    assert_eq!(r.content_type, None);
    assert_eq!(r.body, "Something went wrong");
}

#[test]
fn text_answer() {
    let r = text_response("x 1\n".to_string());
    assert_eq!(r.status, 200);
    assert_eq!(r.content_type.as_deref(), Some("text/plain; version=0.0.4"));
    assert_eq!(r.body, "x 1\n");
}

#[test]
fn empty_exposition_answers_with_empty_text() {
    let r = Exposition::new().into_response();
    assert_eq!(r.status, 200);
    assert_eq!(r.body, "");
}

#[test]
fn respond_follows_the_encoder() {
    let r = respond(false, Exposition::new());
    assert_eq!(r.status, 500);
    assert_eq!(r.body, "Something went wrong");
    let r = respond(true, Exposition::new());
    assert_eq!(r.status, 200);
}

#[test]
fn a_family_without_metrics_cannot_be_encoded() {
    let broken = vec![prometheus::proto::MetricFamily::default()];
    let r = start_exposition(&broken).unwrap_err();
    assert_eq!(r.status, 500);
    assert_eq!(r.body, "Something went wrong");

    let e = start_exposition(&Vec::new()).unwrap();
    let r = finish_exposition(e, &broken);
    assert_eq!(r.status, 500);
}

#[test]
fn append_keeps_earlier_text() {
    let mut registry = Registry::new(MetricOptions::new(String::new(), String::new())).unwrap();
    registry.failed("a");
    let mut e = Exposition::new();
    assert!(e.append(&registry.gather()));
    let first = e.into_response().body;
    let mut e = Exposition::new();
    assert!(e.append(&registry.gather()));
    registry.failed("b");
    let r = finish_exposition(e, &registry.gather());
    assert_eq!(r.status, 200);
    assert!(r.body.starts_with(&first));
    assert!(r.body[first.len()..].contains("instance=\"b\"} 1\n"));
}

#[test]
fn begin_uses_the_default_registry() {
    let c = prometheus::IntCounter::new("exposition_test_total", "a test counter").unwrap();
    prometheus::register(Box::new(c.clone())).unwrap();
    c.inc();
    let e = begin_exposition().unwrap();
    let r = e.into_response();
    assert!(r.body.contains("exposition_test_total 1\n"));
}

#[test]
fn no_families_encode_to_nothing() {
    let mut e = start_exposition(&Vec::new()).unwrap();
    assert!(e.append(&Vec::new()));
    let r = e.into_response();
    assert_eq!(r.status, 200);
    assert_eq!(r.body, "");
}

fn untyped_family_with_a_metric() -> prometheus::proto::MetricFamily {
    let mut f = prometheus::proto::MetricFamily::default();
    f.set_name("odd".to_string());
    f.set_field_type(prometheus::proto::MetricType::UNTYPED);
    f.mut_metric().push(prometheus::proto::Metric::default());
    f
}

#[test]
fn untyped_families_are_detected() {
    assert!(encode_would_panic(&vec![untyped_family_with_a_metric()]));
    // An earlier family that fails the encoder's check stops it before the untyped one.
    assert!(!encode_would_panic(&vec![
        prometheus::proto::MetricFamily::default(),
        untyped_family_with_a_metric()
    ]));
    assert!(!encode_would_panic(&Vec::new()));
}
