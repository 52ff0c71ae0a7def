use random_generator::codec::decode_value;
use random_generator::errors::PluginError;
use random_generator::lifecycle::PublishOutcome;
use random_generator::plugin::{Config, RandomGenPlugin};

fn service(range: u64) -> RandomGenPlugin {
    RandomGenPlugin::new(Config { range }).unwrap()
}

#[test]
fn construction_rejects_a_zero_range() {
    let r = RandomGenPlugin::new(Config { range: 0 });
    assert!(matches!(r, Err(PluginError::ConfigurationError)));
}

#[test]
fn construction_accepts_a_positive_range() {
    assert!(RandomGenPlugin::new(Config { range: 1 }).is_ok());
    assert!(RandomGenPlugin::new(Config { range: u64::MAX }).is_ok());
}

#[test]
fn set_config_is_accepted_and_ignored() {
    let mut plugin = service(5);
    assert_eq!(plugin.set_config(Config { range: 0 }), Ok(()));
    let (value, _) = plugin.produce_event();
    assert!(value < 5);
}

#[test]
fn open_yields_an_instance() {
    let mut plugin = service(5);
    assert!(plugin.open(None).is_ok());
    assert!(plugin.open(Some("params")).is_ok());
}

#[test]
fn produced_payload_decodes_to_the_produced_value() {
    let mut plugin = service(1000);
    for _ in 0..50 {
        let (value, payload) = plugin.produce_event();
        assert!(value < 1000);
        assert_eq!(payload.len(), 8);
        assert_eq!(decode_value(Some(payload.as_slice())), Ok(value));
    }
}

#[test]
fn production_is_counted_before_it_is_observable() {
    let mut plugin = service(1);
    for round in 1..=40u64 {
        let (value, _) = plugin.produce_event();
        assert_eq!(value, 0);
        assert_eq!(plugin.extract_count(0), round);
    }
}

#[test]
fn extract_number_decodes_and_rejects_like_the_codec() {
    let plugin = service(10);
    assert_eq!(plugin.extract_number(Some(&[9, 0, 0, 0, 0, 0, 0, 0])), Ok(9));
    assert_eq!(plugin.extract_number(None), Err(PluginError::MalformedPayload));
    assert_eq!(
        plugin.extract_number(Some(&[1, 2, 3])),
        Err(PluginError::MalformedPayload)
    );
}

#[test]
fn parse_event_records_the_carried_value() {
    let mut plugin = service(10);
    let payload = [3, 0, 0, 0, 0, 0, 0, 0];
    assert_eq!(plugin.parse_event(Some(&payload)), Ok(()));
    assert_eq!(plugin.parse_event(Some(&payload)), Ok(()));
    let seven = [7, 0, 0, 0, 0, 0, 0, 0];
    assert_eq!(plugin.parse_event(Some(&seven)), Ok(()));
    assert_eq!(plugin.extract_count(3), 2);
    assert_eq!(plugin.extract_count(7), 1);
    assert_eq!(plugin.extract_count(0), 0);
}

#[test]
fn parse_event_leaves_the_table_alone_on_malformed_payloads() {
    let mut plugin = service(10);
    assert_eq!(plugin.parse_event(None), Err(PluginError::MalformedPayload));
    assert_eq!(
        plugin.parse_event(Some(&[1, 2, 3])),
        Err(PluginError::MalformedPayload)
    );
    for v in 0..10 {
        assert_eq!(plugin.extract_count(v), 0);
    }
}

#[test]
fn stop_before_start_is_a_safe_no_op() {
    let mut plugin = service(10);
    assert_eq!(plugin.stop_async(), Ok(()));
    assert_eq!(plugin.stop_async(), Ok(()));
    // The loop was never started, so starting is still possible afterwards.
    assert_eq!(plugin.start_async(), Ok(()));
    assert!(!plugin.observe_cancel());
}

#[test]
fn second_stop_after_start_is_a_no_op() {
    let mut plugin = service(10);
    assert_eq!(plugin.start_async(), Ok(()));
    assert_eq!(plugin.stop_async(), Ok(()));
    assert_eq!(plugin.stop_async(), Ok(()));
    // The loop observes the flag once and exits exactly then.
    assert!(plugin.observe_cancel());
}

#[test]
fn loop_runs_until_cancelled() {
    let mut plugin = service(10);
    assert_eq!(plugin.start_async(), Ok(()));
    assert!(!plugin.observe_cancel());
    assert!(!plugin.observe_cancel());
    assert_eq!(plugin.stop_async(), Ok(()));
    assert!(plugin.observe_cancel());
}

#[test]
fn publish_outcomes_steer_the_loop() {
    let mut plugin = service(10);
    assert_eq!(plugin.start_async(), Ok(()));
    assert!(plugin.after_publish(PublishOutcome::Delivered));
    assert!(plugin.after_publish(PublishOutcome::TransientFailure));
    assert!(!plugin.after_publish(PublishOutcome::ReceiverGone));
}
