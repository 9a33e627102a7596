use machine_link::errors::{ErrorClass, ServiceError};
use machine_link::machine_info::{
    machine_icon_key, machine_name_key, MachineInfoError, MachineInfoHandler,
};
use machine_link::responses::{to_generate_code_resp, to_provisioning_status_response};

#[test]
fn machine_info_fills_fields_from_answers() {
    let mut info = MachineInfoHandler::new();
    assert!(info.machine_id.is_none());
    assert!(info.name.is_none());
    assert!(info.icon.is_none());

    info.apply_machine_id(Ok("c6c8f5c44262-utjf-228".to_string()));
    info.apply_name(Ok("workbench".to_string()));
    info.apply_icon(Ok("gear".to_string()));
    assert_eq!(info.machine_id.as_deref(), Some("c6c8f5c44262-utjf-228"));
    assert_eq!(info.name.as_deref(), Some("workbench"));
    assert_eq!(info.icon.as_deref(), Some("gear"));
}

#[test]
fn machine_info_keeps_fields_on_failure() {
    let mut info = MachineInfoHandler::new();
    info.apply_machine_id(Ok("c6c8f5c44262-utjf-228".to_string()));
    let error = ServiceError::new(ErrorClass::ConnectionRefused, "unreachable".to_string());
    info.apply_machine_id(Err(error.clone()));
    info.apply_name(Err(error.clone()));
    info.apply_icon(Err(error));
    assert_eq!(info.machine_id.as_deref(), Some("c6c8f5c44262-utjf-228"));
    assert!(info.name.is_none());
    assert!(info.icon.is_none());
}

#[test]
fn settings_keys_are_fixed() {
    assert_eq!(machine_name_key(), "identity.machine.name");
    assert_eq!(machine_icon_key(), "identity.machine.icon");
}

#[test]
fn machine_info_error_carries_its_parts() {
    let error = MachineInfoError::new("agent unreachable".to_string(), "503".to_string());
    assert_eq!(error.error_message, "agent unreachable");
    assert_eq!(error.error_code, "503");
}

#[test]
fn generate_code_resp_from_result() {
    let ok = to_generate_code_resp(Ok("KEG3EK".to_string()));
    assert_eq!(ok.code, "KEG3EK");
    assert_eq!(ok.message, "");

    let failed = to_generate_code_resp(Err(ServiceError::new(
        ErrorClass::Timeout,
        "deadline has elapsed".to_string(),
    )));
    assert_eq!(failed.code, "");
    assert_eq!(failed.message, "deadline has elapsed");
}

#[test]
fn provisioning_status_from_result() {
    let redeemed = to_provisioning_status_response(Ok(true));
    assert!(redeemed.success);
    assert_eq!(redeemed.message, "");

    let pending = to_provisioning_status_response(Ok(false));
    assert!(!pending.success);

    let failed = to_provisioning_status_response(Err(ServiceError::new(
        ErrorClass::Application,
        "bad code".to_string(),
    )));
    assert!(!failed.success);
    assert_eq!(failed.message, "bad code");
}

#[test]
fn service_error_transport_classes() {
    assert!(ServiceError::new(ErrorClass::ConnectionRefused, String::new()).is_transport());
    assert!(ServiceError::new(ErrorClass::Timeout, String::new()).is_transport());
    assert!(!ServiceError::new(ErrorClass::Application, String::new()).is_transport());
}
