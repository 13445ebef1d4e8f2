use tasktui::api::{
    validate_api_version, validate_service_name, AdminCommand, AdminResult, ApiRequest,
    TasktuiError, API_VERSION,
};
use tasktui::service::process_request;

#[test]
fn rejects_wrong_version() {
    assert_eq!(
        validate_api_version("v2").expect_err("must reject"),
        TasktuiError::InvalidVersion
    );
}

#[test]
fn validates_service_names() {
    assert!(validate_service_name("Spooler").is_ok());
    assert_eq!(
        validate_service_name("bad name").expect_err("must reject"),
        TasktuiError::InvalidServiceName
    );
}

#[test]
fn invalid_version_returns_failure_response() {
    let request = ApiRequest {
        request_id: "req-1".into(),
        version: "v0".into(),
        command: AdminCommand::Ping,
    };

    let response = process_request(&request, Ok(()));

    assert_eq!(response.request_id, "req-1");
    assert!(!response.ok);
    assert_eq!(response.error, Some(TasktuiError::InvalidVersion));
    assert_eq!(response.result, None);
}

#[test]
fn ping_returns_pong() {
    let request = ApiRequest {
        request_id: "req-2".into(),
        version: API_VERSION.into(),
        command: AdminCommand::Ping,
    };

    let response = process_request(&request, Ok(()));

    assert!(response.ok);
    assert_eq!(response.result, Some(AdminResult::Pong));
    assert_eq!(response.error, None);
}
