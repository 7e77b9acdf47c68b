use horn_client::bridge::{
    bool_label, bridge_step, contains_target_value, horn_status_topic, parse_tag, payload_as_bool,
    tag_label, BridgeAction, MessageTag,
};
use horn_client::codec::encode_activation;
use horn_client::config::{default_config_path, Args};
use horn_client::constants::{
    ACTIVATE_HORN_RESOURCE_ID, DEACTIVATE_HORN_RESOURCE_ID, HORN_SERVICE_ENTITY_ID,
    HORN_SERVICE_MAJOR_VERSION, RPC_CALL_TIMEOUT_MS,
};
use horn_client::constants::horn_service_authority_name;
use horn_client::horn_client::{
    activation_policy, conclude_activation, conclude_deactivation, deactivation_policy,
    horn_resource_identity, is_encodable, prepare_activation_call, prepare_deactivation_call,
    prepare_prebuilt_activation_call, try_prepare_activation_call, CallPolicy, ClientError,
    LogSeverity, RpcOutcome,
};
use horn_client::horn_loop::{example_horn_script, trace_script, HornCommand};
use horn_client::horn_requests::get_prebuilt_activation_request;
use horn_client::PrebuiltHornRequests;

#[test]
fn deactivation_succeeds_on_response() {
    let report = conclude_deactivation(&RpcOutcome::Response(vec![]));
    assert_eq!(report.result, Ok(()));
    assert_eq!(report.severity, LogSeverity::Info);
}

#[test]
fn deactivation_succeeds_but_logs_error_on_empty_response() {
    let report = conclude_deactivation(&RpcOutcome::Empty);
    assert_eq!(report.result, Ok(()));
    assert_eq!(report.severity, LogSeverity::Error);
}

#[test]
fn deactivation_succeeds_but_logs_error_on_failure() {
    let report = conclude_deactivation(&RpcOutcome::Failure(String::from("timeout")));
    assert_eq!(report.result, Ok(()));
    assert_eq!(report.severity, LogSeverity::Error);
}

#[test]
fn activation_is_fire_and_forget() {
    let ok = conclude_activation(&RpcOutcome::Response(vec![]));
    assert_eq!(ok.result, Ok(()));
    assert_eq!(ok.severity, LogSeverity::Info);

    let empty = conclude_activation(&RpcOutcome::Empty);
    assert_eq!(empty.result, Ok(()));
    assert_eq!(empty.severity, LogSeverity::Info);

    let failed = conclude_activation(&RpcOutcome::Failure(String::from("unreachable")));
    assert_eq!(failed.result, Ok(()));
    assert_eq!(failed.severity, LogSeverity::Error);
}

#[test]
fn activation_reports_malformed_response() {
    let report = conclude_activation(&RpcOutcome::Response(vec![7u8]));
    assert_eq!(report.result, Err(ClientError::MalformedResponse));
    assert_eq!(report.severity, LogSeverity::Error);
}

#[test]
fn prepared_activation_call_addresses_the_activate_method() {
    let request = get_prebuilt_activation_request(PrebuiltHornRequests::Sequenced);
    let call = prepare_activation_call(&request);
    assert_eq!(call.resource.authority_name, "horn-service-kuksa");
    assert_eq!(call.resource.entity_id, HORN_SERVICE_ENTITY_ID);
    assert_eq!(call.resource.major_version, HORN_SERVICE_MAJOR_VERSION);
    assert_eq!(call.resource.resource_id, ACTIVATE_HORN_RESOURCE_ID);
    assert_eq!(call.timeout_ms, RPC_CALL_TIMEOUT_MS);
    assert_eq!(call.payload, encode_activation(&request));
}

#[test]
fn prepared_prebuilt_call_carries_the_framed_request() {
    let call = prepare_prebuilt_activation_call(PrebuiltHornRequests::Continuous);
    let request = get_prebuilt_activation_request(PrebuiltHornRequests::Continuous);
    assert_eq!(call.payload, encode_activation(&request));
    assert_eq!(call.resource.resource_id, ACTIVATE_HORN_RESOURCE_ID);
}

#[test]
fn prepared_deactivation_call_addresses_the_deactivate_method() {
    let call = prepare_deactivation_call();
    assert_eq!(call.resource.resource_id, DEACTIVATE_HORN_RESOURCE_ID);
    assert_eq!(call.timeout_ms, 1000);
    assert!(call.payload.is_empty());
}

#[test]
fn prebuilt_requests_are_encodable() {
    let request = get_prebuilt_activation_request(PrebuiltHornRequests::Sequenced);
    assert!(is_encodable(&request));
    let prepared = try_prepare_activation_call(&request);
    assert!(prepared.is_some());
    assert_eq!(prepared.unwrap().payload, encode_activation(&request));
}

#[test]
fn call_sites_carry_the_documented_policies() {
    assert_eq!(activation_policy(), CallPolicy::FireAndForget);
    assert_eq!(deactivation_policy(), CallPolicy::ConfirmRequired);
}

#[test]
fn resource_identity_uses_the_service_constants() {
    let id = horn_resource_identity(ACTIVATE_HORN_RESOURCE_ID);
    assert_eq!(id.authority_name, horn_service_authority_name());
    assert_eq!(id.entity_id, 28);
    assert_eq!(id.major_version, 1);
    assert_eq!(id.resource_id, 0x0001);
}

#[test]
fn target_command_true_is_echoed_as_current_value() {
    let action = bridge_step(
        &Some(String::from("targetValue")),
        &Some(String::from("true")),
    );
    match action {
        BridgeAction::Publish { status, body, tag } => {
            assert!(status);
            assert_eq!(body, "true");
            assert_eq!(tag, MessageTag::Current);
        }
        other => panic!("expected a publish, got {:?}", other),
    }
}

#[test]
fn target_command_false_is_echoed_as_current_value() {
    let action = bridge_step(
        &Some(String::from("targetValue")),
        &Some(String::from("false")),
    );
    match action {
        BridgeAction::Publish { status, body, tag } => {
            assert!(!status);
            assert_eq!(body, "false");
            assert_eq!(tag, MessageTag::Current);
        }
        other => panic!("expected a publish, got {:?}", other),
    }
}

#[test]
fn own_echo_is_ignored() {
    let action = bridge_step(
        &Some(String::from("currentValue")),
        &Some(String::from("true")),
    );
    assert_eq!(action, BridgeAction::Ignore);
}

#[test]
fn message_without_attachment_is_ignored() {
    let action = bridge_step(&None, &Some(String::from("true")));
    assert_eq!(action, BridgeAction::Ignore);
}

#[test]
fn unrecognized_tag_is_ignored() {
    let action = bridge_step(
        &Some(String::from("otherValue")),
        &Some(String::from("true")),
    );
    assert_eq!(action, BridgeAction::Ignore);
}

#[test]
fn unparseable_command_body_is_discarded_not_coerced() {
    // the chosen policy: a command whose body is not a boolean is a
    // malformed command, never an implicit deactivation
    let action = bridge_step(
        &Some(String::from("targetValue")),
        &Some(String::from("maybe")),
    );
    assert_eq!(action, BridgeAction::RejectMalformed);
}

#[test]
fn non_text_command_body_is_discarded() {
    let action = bridge_step(&Some(String::from("targetValue")), &None);
    assert_eq!(action, BridgeAction::RejectMalformed);
}

#[test]
fn tag_parsing_recognizes_exactly_the_two_tags() {
    assert_eq!(parse_tag(&String::from("targetValue")), Some(MessageTag::Target));
    assert_eq!(parse_tag(&String::from("currentValue")), Some(MessageTag::Current));
    assert_eq!(parse_tag(&String::from("TargetValue")), None);
    assert_eq!(parse_tag(&String::from("")), None);
    assert_eq!(tag_label(MessageTag::Target), "targetValue");
    assert_eq!(tag_label(MessageTag::Current), "currentValue");
}

#[test]
fn attachment_classification_matches_the_tag() {
    assert!(contains_target_value(&Some(String::from("targetValue"))));
    assert!(!contains_target_value(&Some(String::from("currentValue"))));
    assert!(!contains_target_value(&None));
}

#[test]
fn boolean_bodies_parse_strictly() {
    assert_eq!(payload_as_bool(&String::from("true")), Some(true));
    assert_eq!(payload_as_bool(&String::from("false")), Some(false));
    assert_eq!(payload_as_bool(&String::from("True")), None);
    assert_eq!(payload_as_bool(&String::from("maybe")), None);
    assert_eq!(bool_label(true), "true");
    assert_eq!(bool_label(false), "false");
}

#[test]
fn topic_is_the_shared_horn_status_channel() {
    assert_eq!(horn_status_topic(), "Vehicle/Body/Horn/IsActive");
}

#[test]
fn script_is_the_documented_sequence() {
    let script = example_horn_script();
    assert_eq!(
        script,
        vec![
            HornCommand::Activate(PrebuiltHornRequests::Sequenced),
            HornCommand::Wait(1500),
            HornCommand::Deactivate,
            HornCommand::Activate(PrebuiltHornRequests::Continuous),
            HornCommand::Wait(4000),
            HornCommand::Deactivate,
        ]
    );
}

#[test]
fn script_completes_when_every_call_succeeds() {
    let script = example_horn_script();
    let trace = trace_script(&script, &vec![true, true, true, true]);
    assert!(trace.completed);
    assert_eq!(trace.performed, script);
}

#[test]
fn failed_call_aborts_the_rest_of_the_script() {
    let script = example_horn_script();
    // the first deactivation fails: the failing step is performed, nothing after it
    let trace = trace_script(&script, &vec![true, false, true, true]);
    assert!(!trace.completed);
    assert_eq!(
        trace.performed,
        vec![
            HornCommand::Activate(PrebuiltHornRequests::Sequenced),
            HornCommand::Wait(1500),
            HornCommand::Deactivate,
        ]
    );
}

#[test]
fn failing_first_call_performs_only_that_step() {
    let script = example_horn_script();
    let trace = trace_script(&script, &vec![false, true, true, true]);
    assert!(!trace.completed);
    assert_eq!(
        trace.performed,
        vec![HornCommand::Activate(PrebuiltHornRequests::Sequenced)]
    );
}

#[test]
fn args_default_points_at_the_default_config() {
    let args = Args::default();
    assert_eq!(args.config, default_config_path());
    assert_eq!(args.config, "/zenoh-config.json5");
    let named = Args::new(String::from("/tmp/other.json5"));
    assert_eq!(named.config, "/tmp/other.json5");
}
