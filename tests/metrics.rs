use rustmann::metrics::histogram_summary;
use rustmann::RiemannObserverBuilder;

#[test]
fn observer_event_has_host_tags_and_metric() {
    let builder = RiemannObserverBuilder::new("web-1", vec!["prod".to_string(), "eu".to_string()]);
    let observer = builder.build();
    let event = observer.create_event("requests", 42.0f64.to_bits());
    assert_eq!(event.service.as_deref(), Some("requests"));
    assert_eq!(event.host.as_deref(), Some("web-1"));
    assert_eq!(event.tags, vec!["prod".to_string(), "eu".to_string()]);
    assert_eq!(f64::from_bits(event.metric_d.unwrap()), 42.0);
    assert!(event.metric_f.is_none());
}

#[test]
fn drain_hands_out_recorded_events_once() {
    let mut observer = RiemannObserverBuilder::new("h", Vec::new()).build();
    observer.record("a", 1.0f64.to_bits());
    observer.record("b", 2.0f64.to_bits());
    let events = observer.drain();
    assert_eq!(events.len(), 2);
    assert_eq!(events[0].service.as_deref(), Some("a"));
    assert_eq!(events[1].service.as_deref(), Some("b"));
    assert!(observer.drain().is_empty());
}

#[test]
fn empty_histogram_has_no_summary() {
    assert!(histogram_summary(&[]).is_none());
}

#[test]
fn histogram_summary_of_ten_values() {
    let values: Vec<u64> = (1..=10).collect();
    let h = histogram_summary(&values).unwrap();
    assert_eq!(h.min, 1);
    assert_eq!(h.max, 10);
    assert_eq!(h.sum, 55);
    assert_eq!(h.count, 10);
    assert_eq!(h.p50, values[5]);
    assert_eq!(h.p90, values[9]);
    assert_eq!(h.p99, values[9]);
    assert_eq!(h.p999, values[9]);
}

#[test]
fn histogram_summary_of_one_value() {
    let h = histogram_summary(&[7]).unwrap();
    assert_eq!((h.min, h.max, h.p50, h.p999), (7, 7, 7, 7));
    assert_eq!(h.sum, 7);
}

#[test]
fn histogram_sum_does_not_overflow() {
    let h = histogram_summary(&[u64::MAX, u64::MAX]).unwrap();
    assert_eq!(h.sum, 2 * u64::MAX as u128);
}

#[test]
fn histogram_ranks_of_thousand_values() {
    let values: Vec<u64> = (0..1000).collect();
    let h = histogram_summary(&values).unwrap();
    assert_eq!(h.p50, 500);
    assert_eq!(h.p90, 900);
    assert_eq!(h.p99, 990);
    assert_eq!(h.p999, 999);
}

#[test]
fn histogram_summary_sorts_before_picking() {
    let h = histogram_summary(&[5, 1, 9, 3]).unwrap();
    assert_eq!(h.min, 1);
    assert_eq!(h.max, 9);
    assert_eq!(h.p50, 5);
    assert_eq!(h.p90, 9);
    assert_eq!(h.sum, 18);
    assert_eq!(h.count, 4);
}
