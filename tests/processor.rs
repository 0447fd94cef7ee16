use user_events_logs::event_name::EventNamePolicy;
use user_events_logs::exporter::ListenerState;
use user_events_logs::processor::Processor;
use user_events_logs::provider::ProviderNameError;
use user_events_logs::record::LogRecordView;

fn record(severity: u8, target: &str, name: Option<&str>) -> LogRecordView {
    LogRecordView {
        severity,
        target: target.to_string(),
        event_name: name.map(|n| n.to_string()),
        timestamp: None,
        body: None,
        attributes: Vec::new(),
    }
}

fn all_listening() -> ListenerState {
    ListenerState { critical: true, error: true, warning: true, informational: true, verbose: true }
}

#[test]
fn test_processor_builder_with_valid_provider() {
    let processor = Processor::builder("test_provider").build();
    assert!(processor.is_ok());
}

#[test]
fn test_processor_builder_with_empty_provider_name() {
    let processor = Processor::builder("").build();
    assert!(processor.is_err());
    assert_eq!(
        processor.unwrap_err().message(),
        "Provider name cannot be empty."
    );
}

#[test]
fn test_processor_builder_with_long_provider_name() {
    let long_name = "a".repeat(234);
    let processor = Processor::builder(&long_name).build();
    assert!(processor.is_err());
}

#[test]
fn test_processor_builder_with_invalid_chars() {
    let invalid_name = "test-provider";
    let processor = Processor::builder(invalid_name).build();
    assert!(processor.is_err());
}

#[test]
fn valid_provider_name() {
    let valid_names = vec![
        "ValidName",
        "valid_name",
        "Valid123",
        "valid_123",
        "_valid_name",
        "VALID_NAME",
    ];

    for valid_name in valid_names {
        let processor = Processor::builder(valid_name).build();
        assert!(processor.is_ok());
    }
}

#[test]
fn provider_name_contains_invalid_characters() {
    let invalid_names = vec![
        "Invalid Name",
        "Invalid:Name",
        "Invalid\0Name",
        "Invalid-Name",
        "InvalidName!",
        "InvalidName@",
        "Invalid+Name",
        "Invalid&Name",
        "Invalid#Name",
        "Invalid%Name",
        "Invalid/Name",
        "Invalid\\Name",
        "Invalid=Name",
        "Invalid?Name",
        "Invalid;Name",
        "Invalid,Name",
    ];

    let expected_error = "Provider name must contain only ASCII letters, digits, and '_'.";

    for invalid_name in invalid_names {
        let options = Processor::builder(invalid_name).build();
        assert!(
            options.is_err(),
            "Expected '{invalid_name}' to be invalid, but it was accepted"
        );

        assert_eq!(
            options.err().unwrap().message(),
            expected_error,
            "Wrong error message for invalid name: '{invalid_name}'"
        );
    }
}

#[test]
fn test_shutdown() {
    let mut processor = Processor::builder("test_provider").build().unwrap();
    assert!(processor.shutdown().is_ok());
}

#[test]
fn test_force_flush() {
    let processor = Processor::builder("test_provider").build().unwrap();
    assert!(processor.force_flush().is_ok());
}

#[test]
fn test_emit() {
    let processor = Processor::builder("test_provider").build().unwrap();
    let record = record(0, "test", None);
    let _ = processor.emit(&ListenerState::none(), &record);
    let _ = processor.emit(&all_listening(), &record);
}

#[test]
fn test_event_enabled() {
    let processor = Processor::builder("test_provider").build().unwrap();
    let listeners = ListenerState::none();
    let _info_enabled = processor.event_enabled(&listeners, 9, "test", Some("test"));
    let _debug_enabled = processor.event_enabled(&listeners, 5, "test", Some("test"));
    let _error_enabled = processor.event_enabled(&listeners, 17, "test", Some("test"));
}

#[test]
fn provider_name_error_cases_in_order() {
    assert_eq!(Processor::builder("").build().unwrap_err(), ProviderNameError::Empty);
    let long_name = "a".repeat(234);
    assert_eq!(Processor::builder(&long_name).build().unwrap_err(), ProviderNameError::TooLong);
    let long_and_invalid = "-".repeat(300);
    assert_eq!(
        Processor::builder(&long_and_invalid).build().unwrap_err(),
        ProviderNameError::TooLong
    );
    assert_eq!(
        Processor::builder("test-provider").build().unwrap_err(),
        ProviderNameError::InvalidCharacters
    );
    assert_eq!(
        Processor::builder(&long_name).build().unwrap_err().message(),
        "Provider name must be less than 234 characters."
    );
    assert!(Processor::builder("Valid_123").build().is_ok());
}

#[test]
fn provider_name_length_boundary() {
    assert!(Processor::builder(&"a".repeat(233)).build().is_ok());
    assert!(Processor::builder(&"a".repeat(234)).build().is_err());
    assert!(Processor::builder("a").build().is_ok());
}

#[test]
fn provider_name_non_ascii_is_refused() {
    assert_eq!(
        Processor::builder("caf\u{e9}").build().unwrap_err(),
        ProviderNameError::InvalidCharacters
    );
    let wide = "\u{e9}".repeat(120);
    assert_eq!(Processor::builder(&wide).build().unwrap_err(), ProviderNameError::TooLong);
}

#[test]
fn shutdown_twice_then_emit_writes_nothing() {
    let mut processor = Processor::builder("myprovider").build().unwrap();
    let listeners = all_listening();
    let r = record(17, "app", None);
    assert!(processor.emit(&listeners, &r).is_some());
    assert!(processor.shutdown().is_ok());
    assert!(processor.shutdown().is_ok());
    assert!(processor.emit(&listeners, &r).is_none());
    assert!(!processor.event_enabled(&listeners, 17, "app", None));
    assert!(processor.force_flush().is_ok());
}

#[test]
fn event_enabled_follows_listener_flags() {
    let processor = Processor::builder("myprovider").build().unwrap();
    let mut listeners = ListenerState::none();
    assert!(!processor.event_enabled(&listeners, 17, "app", Some("x")));
    listeners.error = true;
    assert!(processor.event_enabled(&listeners, 17, "app", Some("x")));
    assert!(!processor.event_enabled(&listeners, 13, "app", Some("x")));
    assert!(!processor.event_enabled(&listeners, 21, "app", Some("x")));
}

#[test]
fn builder_with_custom_policy_and_resource_keys() {
    let builder = Processor::builder("myprovider")
        .with_resource_attributes(vec!["service.name".to_string()])
        .with_event_name_callback(EventNamePolicy::FromRecordName);
    let processor = builder.build().unwrap();
    let out = processor.emit(&all_listening(), &record(9, "app", Some("Named"))).unwrap();
    assert_eq!(out.event_name, "Named");
    assert_eq!(out.tracepoint, "myprovider_L4K1");
}
