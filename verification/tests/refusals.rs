use saga_coordinator::errors::Error;
use saga_coordinator::services::common::{service_error, ApiFailure};
use saga_coordinator::validation::{parse_validation_errors, CommonErrorMessage};

fn message(code: u16, payload: Option<&str>) -> Option<CommonErrorMessage> {
    Some(CommonErrorMessage {
        code,
        description: "refused".to_string(),
        payload: payload.map(|p| p.to_string()),
    })
}

const PAYLOAD: &str = r#"{
    "email": [{"code": "email", "message": "Invalid email", "params": {}}],
    "password": [{"code": "length", "message": null, "params": {}}],
    "phone": []
}"#;

#[test]
fn error_codes_match_http_statuses() {
    assert_eq!(Error::NotFound.code(), 404);
    assert_eq!(Error::Parse.code(), 422);
    assert_eq!(Error::HttpClient.code(), 500);
    assert_eq!(Error::RpcClient.code(), 500);
    assert_eq!(Error::Unknown.code(), 500);
    assert_eq!(Error::Forbidden.code(), 403);
    let v = parse_validation_errors(message(400, Some(PAYLOAD)), &["email"]).unwrap();
    assert_eq!(v.code(), 400);
    assert!(v.payload().is_some());
    assert!(Error::NotFound.payload().is_none());
}

#[test]
fn api_errors_become_forbidden_or_rpc_client() {
    assert!(matches!(Error::from_api_error(Some(403)), Error::Forbidden));
    assert!(matches!(Error::from_api_error(Some(500)), Error::RpcClient));
    assert!(matches!(Error::from_api_error(Some(404)), Error::RpcClient));
    assert!(matches!(Error::from_api_error(None), Error::RpcClient));
}

#[test]
fn refusals_without_a_message_stay_as_they_were() {
    assert!(parse_validation_errors(None, &["email"]).is_none());
}

#[test]
fn forbidden_and_not_found_refusals() {
    assert!(matches!(parse_validation_errors(message(403, None), &["email"]), Some(Error::Forbidden)));
    assert!(matches!(parse_validation_errors(message(404, Some(PAYLOAD)), &["email"]), Some(Error::NotFound)));
}

#[test]
fn other_refusals_are_unknown() {
    assert!(matches!(parse_validation_errors(message(500, Some(PAYLOAD)), &["email"]), Some(Error::Unknown)));
    assert!(matches!(parse_validation_errors(message(400, None), &["email"]), Some(Error::Unknown)));
    assert!(matches!(parse_validation_errors(message(400, Some("not json")), &["email"]), Some(Error::Unknown)));
    assert!(matches!(parse_validation_errors(message(400, Some("[1, 2]")), &["email"]), Some(Error::Unknown)));
}

#[test]
fn validation_refusals_keep_the_first_error_of_each_known_field() {
    let e = parse_validation_errors(message(400, Some(PAYLOAD)), &["phone", "password", "email", "name"]).unwrap();
    match e {
        Error::Validate(v) => {
            let fields: Vec<&str> = v.fields.iter().map(|f| f.field.as_str()).collect();
            assert_eq!(fields, vec!["password", "email"]);
            assert_eq!(v.fields[0].error.code, "length");
            assert_eq!(v.fields[1].error.code, "email");
            assert_eq!(v.fields[1].error.message.as_deref(), Some("Invalid email"));
        }
        other => panic!("unexpected {:?}", other),
    }
}

#[test]
fn validation_refusals_without_known_fields_are_empty() {
    match parse_validation_errors(message(400, Some(PAYLOAD)), &["store"]).unwrap() {
        Error::Validate(v) => assert!(v.fields.is_empty()),
        other => panic!("unexpected {:?}", other),
    }
}

#[test]
fn failed_calls_without_a_message_are_http_client_failures() {
    assert!(matches!(service_error(ApiFailure { message: None }, &["email"]), Error::HttpClient));
    assert!(matches!(service_error(ApiFailure { message: message(403, None) }, &["email"]), Error::Forbidden));
}

#[test]
fn failures_are_described_by_their_kind() {
    assert_eq!(Error::NotFound.description(), "Not found");
    assert_eq!(Error::Parse.description(), "Parse error");
    assert_eq!(Error::HttpClient.description(), "Http client error");
    assert_eq!(Error::RpcClient.description(), "Rpc client error");
    assert_eq!(Error::Forbidden.description(), "Server is refusing to fullfil the reqeust");
    assert_eq!(Error::Unknown.description(), "Unknown server error");
    let v = parse_validation_errors(message(400, Some(PAYLOAD)), &["email"]).unwrap();
    assert_eq!(v.description(), "Validation error");
}

#[test]
fn validation_refusals_keep_the_parameters_of_an_error() {
    let payload = r#"{"name": [{"code": "length", "message": null, "params": {"min": 3, "max": 10}}]}"#;
    match parse_validation_errors(message(400, Some(payload)), &["name"]).unwrap() {
        Error::Validate(v) => {
            let mut params = v.fields[0].error.params.clone();
            params.sort();
            assert_eq!(params, vec![("max".to_string(), "10".to_string()), ("min".to_string(), "3".to_string())]);
            assert!(v.fields[0].error.message.is_none());
        }
        other => panic!("unexpected {:?}", other),
    }
}
