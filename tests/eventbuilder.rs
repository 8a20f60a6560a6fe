use rustmann::EventBuilder;

#[test]
fn test_builder() {
    let event = EventBuilder::new()
        .time(123)
        .state("ok")
        .service("test_service")
        .host("localhost")
        .description("short desc")
        .add_tag("tag1")
        .add_tag("tag2")
        .ttl(5.0f32.to_bits())
        .time_micros(123000)
        .metric_sint64(100)
        .metric_d(1.0f64.to_bits())
        .metric_f(2.0f32.to_bits())
        .add_attribute("name", Some("Joe"))
        .build();

    assert_eq!(123, event.time.unwrap());
    assert_eq!("ok", event.state.unwrap());
    assert_eq!("test_service", event.service.unwrap());
    assert_eq!("localhost", event.host.unwrap());
    assert_eq!("short desc", event.description.unwrap());
    assert_eq!(2, event.tags.len());
    assert_eq!(5.0, f32::from_bits(event.ttl.unwrap()));
    assert_eq!(123000, event.time_micros.unwrap());
    assert_eq!(100, event.metric_sint64.unwrap());
    assert_eq!(1.0, f64::from_bits(event.metric_d.unwrap()));
    assert_eq!(2.0, f32::from_bits(event.metric_f.unwrap()));
    assert_eq!(1, event.attributes.len());
}

#[test]
fn builder_starts_empty() {
    let event = EventBuilder::new().build();
    assert!(event.time.is_none());
    assert!(event.service.is_none());
    assert!(event.tags.is_empty());
    assert!(event.attributes.is_empty());
    assert!(event.metric_d.is_none());
}

#[test]
fn builder_keeps_tag_order_and_duplicates() {
    let event = EventBuilder::new()
        .add_tag("b")
        .add_tag("a")
        .add_tag("b")
        .build();
    assert_eq!(vec!["b".to_string(), "a".to_string(), "b".to_string()], event.tags);
}

#[test]
fn builder_attribute_without_value() {
    let event = EventBuilder::new()
        .add_attribute("k1", None)
        .add_attribute("k2", Some("v2"))
        .build();
    assert_eq!("k1", event.attributes[0].key);
    assert!(event.attributes[0].value.is_none());
    assert_eq!("k2", event.attributes[1].key);
    assert_eq!(Some("v2".to_string()), event.attributes[1].value);
}

#[test]
fn builder_later_setting_wins() {
    let event = EventBuilder::new().service("a").service("b").build();
    assert_eq!(Some("b".to_string()), event.service);
}
