use edgelet::config::{CreateOptions, EngineConfig, LogOptions};
use edgelet::error::Error;
use edgelet::identity::{delete_identity_request, delete_identity_status};
use edgelet::module::{Module, ModuleRuntimeState, ModuleStatus, Pid};
use edgelet::module_spec::ModuleSpec;
use edgelet::provision::{
    DeviceRegistration, DeviceRegistrationResult, RegistrationOperationStatus, TpmAttestation,
    TpmRegistrationResult,
};
use edgelet::reconcile::list_with_details;
use edgelet::runtime::interpret_engine_status;
use edgelet::text::is_blank;

fn cfg() -> EngineConfig {
    EngineConfig::new("img".to_string(), CreateOptions::new(), None).unwrap()
}

fn module(name: &str) -> Module {
    Module::new(name.to_string(), cfg()).unwrap()
}

fn running() -> ModuleRuntimeState {
    ModuleRuntimeState::default().with_pid(Pid::Any)
}

#[test]
fn list_with_details_filters_out_deleted_containers() {
    let results = vec![
        (module("a"), Ok(running())),
        (module("b"), Err(Error::NotFound(String::new()))),
        (module("c"), Err(Error::NotFound(String::new()))),
        (module("d"), Ok(running())),
    ];
    assert_eq!(
        list_with_details(results).unwrap(),
        vec![(module("a"), running()), (module("d"), running())]
    );
}

#[test]
fn list_with_details_surfaces_other_failures() {
    let results = vec![
        (module("a"), Ok(running())),
        (module("b"), Err(Error::Engine("boom".to_string()))),
        (module("c"), Ok(running())),
    ];
    assert_eq!(
        Err(Error::Engine("boom".to_string())),
        list_with_details(results)
    );
}

#[test]
fn list_with_details_keeps_completion_order() {
    let results = vec![(module("d"), Ok(running())), (module("a"), Ok(running()))];
    let yielded = list_with_details(results).unwrap();
    assert_eq!("d", yielded[0].0.name().as_str());
    assert_eq!("a", yielded[1].0.name().as_str());
}

#[test]
fn delete_identity_requires_name_param() {
    match delete_identity_request(None) {
        Err(Error::BadParam) => {}
        _ => panic!("expected a bad-parameter error"),
    }
    let name = "m2".to_string();
    let spec = delete_identity_request(Some(&name)).unwrap();
    assert_eq!("m2", spec.name().as_str());
}

#[test]
fn delete_identity_status_per_outcome() {
    assert_eq!(204, delete_identity_status(&Ok(())));
    assert_eq!(
        404,
        delete_identity_status(&Err(Error::NotFound("m".to_string())))
    );
    assert_eq!(400, delete_identity_status(&Err(Error::BadParam)));
    assert_eq!(
        500,
        delete_identity_status(&Err(Error::Engine("x".to_string())))
    );
}

#[test]
fn error_helpers_classify_kinds() {
    assert!(Error::NotFound(String::new()).is_not_found());
    assert!(!Error::Engine(String::new()).is_not_found());
    assert!(Error::InvalidIdentifier.validation());
    assert!(Error::InvalidModuleType.validation());
    assert!(Error::BadParam.validation());
    assert!(!Error::NotFound(String::new()).validation());
    let e = Error::Engine("why".to_string());
    assert_eq!(e, e.dup());
}

#[test]
fn engine_status_classifies_answers() {
    assert_eq!(Ok(()), interpret_engine_status(204, "ctx".to_string()));
    assert_eq!(
        Err(Error::NotFound("gone".to_string())),
        interpret_engine_status(404, "gone".to_string())
    );
    assert_eq!(
        Err(Error::Engine("oops".to_string())),
        interpret_engine_status(500, "oops".to_string())
    );
}

#[test]
fn is_blank_covers_unicode_whitespace() {
    assert!(is_blank(""));
    assert!(is_blank("     "));
    assert!(is_blank("\t\n\r\u{00A0}\u{2003}"));
    assert!(!is_blank(" a "));
}

#[test]
fn engine_config_rejects_blank_image() {
    match EngineConfig::new("   ".to_string(), CreateOptions::new(), None) {
        Err(Error::InvalidIdentifier) => {}
        _ => panic!("expected a validation error"),
    }
}

#[test]
fn engine_config_carries_image_id() {
    let config = cfg().with_image_id("sha256:abc".to_string());
    assert_eq!("img", config.image().as_str());
    assert_eq!(&Some("sha256:abc".to_string()), config.image_id());
}

#[test]
fn module_rejects_blank_name() {
    match Module::new(" ".to_string(), cfg()) {
        Err(Error::InvalidIdentifier) => {}
        _ => panic!("expected a validation error"),
    }
}

#[test]
fn log_options_defaults() {
    let options = LogOptions::new();
    assert!(!options.follow());
    assert_eq!("all", options.tail().as_str());
    let options = options.with_follow(true).with_tail("100".to_string());
    assert!(options.follow());
    assert_eq!("100", options.tail().as_str());
}

#[test]
fn module_runtime_state_builders() {
    let state = ModuleRuntimeState::default()
        .with_status(ModuleStatus::Running)
        .with_exit_code(0)
        .with_started_at("2018-06-28T00:00:00Z".to_string())
        .with_pid(Pid::Value(42));
    assert_eq!(ModuleStatus::Running, state.status);
    assert_eq!(Some(0), state.exit_code);
    assert_eq!(Some("2018-06-28T00:00:00Z".to_string()), state.started_at);
    assert_eq!(None, state.finished_at);
    assert_eq!(Pid::Value(42), state.pid);
}

#[test]
fn module_spec_accessors() {
    let mut spec = ModuleSpec::new("m1".to_string(), "docker".to_string(), cfg());
    assert_eq!("m1", spec.name().as_str());
    assert_eq!("docker", spec.type_().as_str());
    assert_eq!("img", spec.config().image().as_str());
    spec.set_name("m2".to_string());
    assert_eq!("m2", spec.name().as_str());
    let spec = spec.with_type("other".to_string());
    assert_eq!("other", spec.type_().as_str());
}

#[test]
fn device_registration_accessors() {
    let mut registration = DeviceRegistration::new()
        .with_registration_id("reg-1".to_string())
        .with_tpm(TpmAttestation::new("ek".to_string()));
    assert_eq!(Some("reg-1"), registration.registration_id());
    assert_eq!("ek", registration.tpm().unwrap().endorsement_key().as_str());
    registration.reset_registration_id();
    assert_eq!(None, registration.registration_id());
    registration.reset_tpm();
    assert!(registration.tpm().is_none());
}

#[test]
fn tpm_attestation_accessors() {
    let mut attestation =
        TpmAttestation::new("ek".to_string()).with_storage_root_key("srk".to_string());
    assert_eq!(Some("srk"), attestation.storage_root_key());
    attestation.set_endorsement_key("ek2".to_string());
    assert_eq!("ek2", attestation.endorsement_key().as_str());
    attestation.reset_storage_root_key();
    assert_eq!(None, attestation.storage_root_key());
}

#[test]
fn tpm_registration_result_accessors() {
    let mut result = TpmRegistrationResult::new();
    assert_eq!(None, result.authentication_key());
    result.set_authentication_key("key".to_string());
    assert_eq!(Some("key"), result.authentication_key());
}

#[test]
fn registration_operation_status_accessors() {
    let status = RegistrationOperationStatus::new("op-1".to_string())
        .with_status("assigning".to_string())
        .with_registration_state(DeviceRegistrationResult::new(
            "reg-1".to_string(),
            "assigned".to_string(),
        ));
    assert_eq!("op-1", status.operation_id().as_str());
    assert_eq!(Some("assigning"), status.status());
    assert_eq!(
        "reg-1",
        status.registration_state().unwrap().registration_id().as_str()
    );
}

#[test]
fn device_registration_result_accessors() {
    let mut result = DeviceRegistrationResult::new("reg-1".to_string(), "assigned".to_string())
        .with_assigned_hub("hub".to_string())
        .with_device_id("dev".to_string())
        .with_error_code(3)
        .with_etag("tag".to_string());
    assert_eq!("reg-1", result.registration_id().as_str());
    assert_eq!("assigned", result.status().as_str());
    assert_eq!(Some("hub"), result.assigned_hub());
    assert_eq!(Some("dev"), result.device_id());
    assert_eq!(Some(3), result.error_code());
    assert_eq!(Some("tag"), result.etag());
    result.reset_error_code();
    assert_eq!(None, result.error_code());
    result.reset_etag();
    assert_eq!(None, result.etag());
}
