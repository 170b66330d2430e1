use kube_client_core::client::{classify_send_failure, Client, Timestamp, MAILBOX_CAPACITY};
use kube_client_core::discovery::{
    api_group_resources_path, api_groups_path, core_api_resources_path, core_api_versions_path, version_path,
};
use kube_client_core::error::{ClientError, ErrorResponse};
use kube_client_core::response::{kind_from_field, response_kind, ResponseKind};

#[test]
fn default_namespace_is_kept() {
    let client = Client::new((), "test-namespace");
    assert_eq!(client.default_namespace(), "test-namespace");
    assert!(client.valid_until().is_none());
}

#[test]
fn expiry_is_set_on_a_new_value() {
    let t = Timestamp::new(1_700_000_000, 5).unwrap();
    let client = Client::new(3u32, "default").with_valid_until(Some(t));
    assert_eq!(*client.valid_until(), Some(t));
    assert_eq!(client.default_namespace(), "default");
    assert_eq!(*client.service(), 3u32);
    let copy = client.clone();
    assert_eq!(copy.default_namespace(), "default");
    assert_eq!(*copy.valid_until(), Some(t));
    let cleared = copy.with_valid_until(None);
    assert!(cleared.valid_until().is_none());
}

#[test]
fn timestamp_nanos_bound() {
    assert!(Timestamp::new(0, 999_999_999).is_some());
    assert!(Timestamp::new(59, 1_500_000_000).is_some());
    assert!(Timestamp::new(0, 1_999_999_999).is_some());
    assert!(Timestamp::new(0, 2_000_000_000).is_none());
    let t = Timestamp::new(-5, 7).unwrap();
    assert_eq!(t.seconds, -5);
    assert_eq!(t.nanos, 7);
}

#[test]
fn mailbox_bound() {
    assert_eq!(MAILBOX_CAPACITY, 1024);
}

#[test]
fn structured_failure_takes_precedence() {
    let api = ErrorResponse { status: "Failure".into(), code: 401, message: "no".into(), reason: "Unauthorized".into() };
    let e = classify_send_failure(Some(ClientError::Api(api.clone())), Some("reset".into()), "svc".into());
    assert!(matches!(e, ClientError::Api(a) if a == api));
    let e = classify_send_failure(None, Some("reset".into()), "svc".into());
    assert!(matches!(e, ClientError::HyperError(m) if m == "reset"));
    let e = classify_send_failure(None, None, "svc".into());
    assert!(matches!(e, ClientError::Service(m) if m == "svc"));
}

#[test]
fn discovery_paths() {
    assert_eq!(version_path(), "/version");
    assert_eq!(api_groups_path(), "/apis");
    assert_eq!(api_group_resources_path("apps/v1"), "/apis/apps/v1");
    assert_eq!(core_api_versions_path(), "/api");
    assert_eq!(core_api_resources_path("v1"), "/api/v1");
}

#[test]
fn status_kind_selects_status_branch() {
    let r = response_kind(r#"{"kind":"Status","apiVersion":"v1","status":"Success","code":200}"#);
    assert!(matches!(r, Ok(ResponseKind::Status)));
}

#[test]
fn other_kind_selects_object_branch() {
    assert!(matches!(response_kind(r#"{"kind":"Pod","metadata":{"name":"test"}}"#), Ok(ResponseKind::Object)));
    assert!(matches!(response_kind(r#"{"metadata":{}}"#), Ok(ResponseKind::Object)));
    assert!(matches!(response_kind(r#"{"kind":"status"}"#), Ok(ResponseKind::Object)));
    assert!(matches!(response_kind("[1,2]"), Ok(ResponseKind::Object)));
    assert!(matches!(response_kind(r#"{"kind":7}"#), Ok(ResponseKind::Object)));
}

#[test]
fn non_json_body_is_a_decode_error() {
    match response_kind("not json") {
        Err(ClientError::SerdeError { text, .. }) => assert_eq!(text, "not json"),
        other => panic!("unexpected {other:?}"),
    }
    let err = serde_json::from_str::<serde_json::Value>("x").unwrap_err();
    assert!(matches!(kind_from_field("x", Err(err)), Err(ClientError::SerdeError { .. })));
    assert!(matches!(kind_from_field("", Ok(Some("Status".to_string()))), Ok(ResponseKind::Status)));
    assert!(matches!(kind_from_field("", Ok(Some("Statu".to_string()))), Ok(ResponseKind::Object)));
    assert!(matches!(kind_from_field("", Ok(None)), Ok(ResponseKind::Object)));
}
