use argocd_mcp_server::argocd_client::{
    api_error, raw_api_error, application_names, entry_of_line, error_message, events_summary, log_entries, log_entry_from_json,
    summarize_applications, ApiRequest, ArgocdClient, HttpMethod, RequestBody,
};
use argocd_mcp_server::json::{JsonField, JsonValue};
use argocd_mcp_server::models::{
    Application, ApplicationList, Backoff, EventList, ObjectMeta, RetryStrategy, SyncResource,
};

fn client() -> ArgocdClient {
    ArgocdClient::new("https://argocd.example.com/".to_string(), "test-token".to_string()).unwrap()
}

fn field<'a>(v: &'a JsonValue, name: &str) -> &'a JsonValue {
    match v {
        JsonValue::Object(fields) => &fields.iter().find(|f| f.name == name).expect("member present").value,
        _ => panic!("not an object"),
    }
}

fn names(v: &JsonValue) -> Vec<String> {
    match v {
        JsonValue::Object(fields) => fields.iter().map(|f| f.name.clone()).collect(),
        _ => panic!("not an object"),
    }
}

fn is_str(v: &JsonValue, s: &str) -> bool {
    matches!(v, JsonValue::Str(x) if x == s)
}

fn json_body(r: &ApiRequest) -> &JsonValue {
    match &r.body {
        RequestBody::Json(b) => b,
        _ => panic!("no JSON body"),
    }
}

fn assert_get_headers(r: &ApiRequest) {
    assert_eq!(r.method, HttpMethod::Get);
    assert!(matches!(r.body, RequestBody::Empty));
    assert_eq!(
        r.headers,
        vec![
            ("Authorization".to_string(), "Bearer test-token".to_string()),
            ("Accept".to_string(), "application/json".to_string()),
        ]
    );
}

#[test]
fn test_client_creation() {
    let client = ArgocdClient::new("https://argocd.example.com".to_string(), "test-token".to_string());
    assert!(client.is_ok());
}

#[test]
fn test_client_empty_url() {
    let client = ArgocdClient::new("".to_string(), "test-token".to_string());
    assert!(client.is_err());
}

#[test]
fn test_client_empty_token() {
    let client = ArgocdClient::new("https://argocd.example.com".to_string(), "".to_string());
    assert!(client.is_err());
}

#[test]
fn client_errors_name_the_empty_setting() {
    assert_eq!(ArgocdClient::new("".to_string(), "t".to_string()).err().unwrap(), "base_url cannot be empty");
    assert_eq!(ArgocdClient::new("".to_string(), "".to_string()).err().unwrap(), "base_url cannot be empty");
    assert_eq!(
        ArgocdClient::new("https://x".to_string(), "".to_string()).err().unwrap(),
        "access_token cannot be empty"
    );
}

#[test]
fn client_drops_trailing_slashes() {
    let c = ArgocdClient::new("https://argocd.example.com///".to_string(), "t".to_string()).unwrap();
    assert_eq!(c.base_url(), "https://argocd.example.com");
    let c = ArgocdClient::new("https://argocd.example.com/path".to_string(), "t".to_string()).unwrap();
    assert_eq!(c.base_url(), "https://argocd.example.com/path");
}

#[test]
fn insecure_setting_is_true_in_any_case() {
    assert!(ArgocdClient::skip_tls_verification(Some("true".to_string())));
    assert!(ArgocdClient::skip_tls_verification(Some("TRUE".to_string())));
    assert!(ArgocdClient::skip_tls_verification(Some("True".to_string())));
    assert!(!ArgocdClient::skip_tls_verification(Some("false".to_string())));
    assert!(!ArgocdClient::skip_tls_verification(Some("1".to_string())));
    assert!(!ArgocdClient::skip_tls_verification(None));
}

#[test]
fn list_applications_request_encodes_filters() {
    let r = client().list_applications_request(
        &Some("guestbook".to_string()),
        &Some(vec!["default".to_string(), "prod team".to_string()]),
        &Some("env=prod".to_string()),
        &None,
        &Some("argocd".to_string()),
    );
    assert_get_headers(&r);
    assert_eq!(
        r.url,
        "https://argocd.example.com/api/v1/applications?name=guestbook&projects=default&projects=prod%20team&selector=env%3Dprod&appNamespace=argocd"
    );
}

#[test]
fn list_application_names_request_without_filters_has_no_query() {
    let r = client().list_application_names_request(&None, &None, &None, &None);
    assert_get_headers(&r);
    assert_eq!(r.url, "https://argocd.example.com/api/v1/applications");
}

#[test]
fn application_name_is_encoded_in_the_path() {
    let r = client().get_application_request("my-app/namespace", &None, &None, &None, &None);
    assert_eq!(r.url, "https://argocd.example.com/api/v1/applications/my-app%2Fnamespace");
    let r = client().get_application_request(
        "guestbook",
        &Some("argocd".to_string()),
        &Some("default".to_string()),
        &Some("hard".to_string()),
        &Some("123".to_string()),
    );
    assert_eq!(
        r.url,
        "https://argocd.example.com/api/v1/applications/guestbook?appNamespace=argocd&project=default&refresh=hard&resourceVersion=123"
    );
}

#[test]
fn server_side_diff_request_lists_each_manifest() {
    let r = client().server_side_diff_request(
        "guestbook",
        &None,
        &Some("default".to_string()),
        &Some(vec!["a: 1".to_string(), "b".to_string()]),
    );
    assert_get_headers(&r);
    assert_eq!(
        r.url,
        "https://argocd.example.com/api/v1/applications/guestbook/server-side-diff?project=default&targetManifests=a%3A%201&targetManifests=b"
    );
}

#[test]
fn resource_tree_and_events_requests() {
    let r = client().resource_tree_request(
        "guestbook",
        &Some("default".to_string()),
        &None,
        &Some("v1".to_string()),
        &None,
        &Some("Deployment".to_string()),
        &None,
        &None,
    );
    assert_eq!(
        r.url,
        "https://argocd.example.com/api/v1/applications/guestbook/resource-tree?namespace=default&version=v1&kind=Deployment"
    );
    let r = client().list_resource_events_request(
        "guestbook",
        &Some("default".to_string()),
        &Some("guestbook-ui".to_string()),
        &Some("uid-1".to_string()),
        &None,
        &Some("default".to_string()),
    );
    assert_eq!(
        r.url,
        "https://argocd.example.com/api/v1/applications/guestbook/events?resourceNamespace=default&resourceName=guestbook-ui&resourceUID=uid-1&project=default"
    );
}

#[test]
fn pod_logs_request_never_follows() {
    let r = client().pod_logs_request(
        "guestbook",
        &Some("default".to_string()),
        &Some("pod-1".to_string()),
        &None,
        Some(-5),
        Some(100),
        Some(true),
        &Some("error text".to_string()),
        &None,
        &None,
        &None,
        &None,
        &None,
    );
    assert_get_headers(&r);
    assert_eq!(
        r.url,
        "https://argocd.example.com/api/v1/applications/guestbook/logs?namespace=default&podName=pod-1&sinceSeconds=-5&tailLines=100&previous=true&filter=error%20text&follow=false"
    );
    let r = client().pod_logs_request(
        "guestbook", &None, &None, &None, None, None, Some(false), &None, &None, &None, &None, &None, &None,
    );
    assert_eq!(r.url, "https://argocd.example.com/api/v1/applications/guestbook/logs?follow=false");
}

#[test]
fn manifests_and_revision_metadata_requests() {
    let r = client().get_manifests_request(
        "guestbook",
        &Some("HEAD".to_string()),
        &None,
        &None,
        &Some(vec![1, -2]),
        &Some(vec!["v1".to_string()]),
    );
    assert_eq!(
        r.url,
        "https://argocd.example.com/api/v1/applications/guestbook/manifests?revision=HEAD&sourcePositions=1&sourcePositions=-2&revisions=v1"
    );
    let r = client().revision_metadata_request("guestbook", "feature/x", &None, &None, Some(0), Some(42));
    assert_eq!(
        r.url,
        "https://argocd.example.com/api/v1/applications/guestbook/revisions/feature%2Fx/metadata?sourceIndex=0&versionId=42"
    );
    let r = client().sync_windows_request("guestbook", &Some("argocd".to_string()), &None);
    assert_eq!(
        r.url,
        "https://argocd.example.com/api/v1/applications/guestbook/sync-windows?appNamespace=argocd"
    );
}

#[test]
fn rollback_request_sends_defaults() {
    let r = client().rollback_request(&"guestbook".to_string(), 3, None, Some(true), &None, &Some("default".to_string()));
    assert_eq!(r.method, HttpMethod::Post);
    assert_eq!(r.url, "https://argocd.example.com/api/v1/applications/guestbook/rollback?project=default");
    assert_eq!(r.headers.len(), 3);
    assert_eq!(r.headers[2], ("Content-Type".to_string(), "application/json".to_string()));
    let b = json_body(&r);
    assert_eq!(names(b), vec!["name", "id", "dryRun", "prune", "appNamespace", "project"]);
    assert!(is_str(field(b, "name"), "guestbook"));
    assert!(matches!(field(b, "id"), JsonValue::Number(Some(3))));
    assert!(matches!(field(b, "dryRun"), JsonValue::Bool(false)));
    assert!(matches!(field(b, "prune"), JsonValue::Bool(true)));
    assert!(matches!(field(b, "appNamespace"), JsonValue::Null));
    assert!(is_str(field(b, "project"), "default"));
}

#[test]
fn forced_sync_request_forces_apply_and_hooks() {
    let resources = Some(vec![SyncResource {
        group: None,
        kind: "Deployment".to_string(),
        name: "web".to_string(),
        namespace: Some("default".to_string()),
    }]);
    let retry = Some(RetryStrategy {
        limit: Some(2),
        backoff: Some(Backoff { duration: Some("5s".to_string()), max_duration: None, factor: Some(2) }),
    });
    let r = client().sync_request(
        &"guestbook".to_string(),
        &None,
        Some(true),
        None,
        Some(true),
        &resources,
        &Some(vec!["Validate=false".to_string()]),
        &retry,
        &None,
        &None,
    );
    assert_eq!(r.method, HttpMethod::Post);
    assert_eq!(r.url, "https://argocd.example.com/api/v1/applications/guestbook/sync");
    let b = json_body(&r);
    assert_eq!(
        names(b),
        vec!["name", "revision", "dryRun", "prune", "strategy", "resources", "syncOptions", "retry", "appNamespace", "project"]
    );
    assert!(matches!(field(b, "dryRun"), JsonValue::Bool(true)));
    assert!(matches!(field(b, "prune"), JsonValue::Bool(false)));
    let strategy = field(b, "strategy");
    assert_eq!(names(strategy), vec!["apply", "hook"]);
    assert!(matches!(field(field(strategy, "apply"), "force"), JsonValue::Bool(true)));
    assert!(matches!(field(field(strategy, "hook"), "force"), JsonValue::Bool(true)));
    match field(b, "resources") {
        JsonValue::Array(items) => {
            assert_eq!(items.len(), 1);
            assert_eq!(names(&items[0]), vec!["kind", "name", "namespace"]);
            assert!(is_str(field(&items[0], "kind"), "Deployment"));
        },
        _ => panic!("resources not an array"),
    }
    let retry = field(b, "retry");
    assert_eq!(names(retry), vec!["limit", "backoff"]);
    assert_eq!(names(field(retry, "backoff")), vec!["duration", "factor"]);

    let r = client().sync_request(
        &"guestbook".to_string(), &None, None, None, Some(false), &None, &None, &None, &None, &None,
    );
    let b = json_body(&r);
    assert!(matches!(field(b, "strategy"), JsonValue::Null));
    assert!(matches!(field(b, "resources"), JsonValue::Null));
    assert!(matches!(field(b, "retry"), JsonValue::Null));
}

#[test]
fn resource_requests_name_the_resource() {
    let r = client().get_resource_request(
        "guestbook",
        &Some("default".to_string()),
        "guestbook-ui",
        "v1",
        &Some("apps".to_string()),
        "Deployment",
        &None,
        &None,
    );
    assert_get_headers(&r);
    assert_eq!(
        r.url,
        "https://argocd.example.com/api/v1/applications/guestbook/resource?namespace=default&resourceName=guestbook-ui&version=v1&group=apps&kind=Deployment"
    );
    let patch = r#"{"spec":{"replicas":3}}"#.to_string();
    let r = client().patch_resource_request(
        "guestbook",
        &None,
        "guestbook-ui",
        "v1",
        &None,
        "Deployment",
        &patch,
        &Some("application/merge-patch+json".to_string()),
        &None,
        &None,
    );
    assert_eq!(r.method, HttpMethod::Post);
    assert_eq!(
        r.url,
        "https://argocd.example.com/api/v1/applications/guestbook/resource?resourceName=guestbook-ui&version=v1&kind=Deployment&patchType=application%2Fmerge-patch%2Bjson"
    );
    assert!(matches!(&r.body, RequestBody::Text(t) if *t == patch));
}

#[test]
fn api_errors_prefer_message_then_error_then_body() {
    assert_eq!(
        api_error("404 Not Found", Some(r#"{"error":"not found","message":"application 'x' not found"}"#.to_string())),
        "ArgoCD API error (404 Not Found): application 'x' not found"
    );
    assert_eq!(
        api_error("403 Forbidden", Some(r#"{"error":"permission denied","code":7}"#.to_string())),
        "ArgoCD API error (403 Forbidden): permission denied"
    );
    assert_eq!(
        api_error("500 Internal Server Error", Some(r#"{"message":""}"#.to_string())),
        r#"ArgoCD API error (500 Internal Server Error): {"message":""}"#
    );
    assert_eq!(
        api_error("502 Bad Gateway", Some("upstream down".to_string())),
        "ArgoCD API error (502 Bad Gateway): upstream down"
    );
    assert_eq!(
        api_error("400 Bad Request", Some(r#"{"message":5}"#.to_string())),
        r#"ArgoCD API error (400 Bad Request): {"message":5}"#
    );
    assert_eq!(
        api_error("400 Bad Request", Some(r#"["e","m"]"#.to_string())),
        "ArgoCD API error (400 Bad Request): m"
    );
    assert_eq!(api_error("503 Service Unavailable", None), "ArgoCD API error (503 Service Unavailable): Unknown error");
}

#[test]
fn error_message_reads_the_parsed_body() {
    let parsed = Some(JsonValue::Object(vec![JsonField {
        name: "error".to_string(),
        value: JsonValue::Str("boom".to_string()),
    }]));
    assert_eq!(error_message("418", "raw", &parsed), "ArgoCD API error (418): boom");
    assert_eq!(error_message("418", "raw", &None), "ArgoCD API error (418): raw");
    assert_eq!(error_message("418", "raw", &Some(JsonValue::Null)), "ArgoCD API error (418): raw");
}

#[test]
fn log_lines_are_read_with_or_without_result_wrapper() {
    let text = [
        r#"{"result":{"content":"ERROR: failed","podName":"p1","timeStampStr":"t1"}}"#,
        "\n",
        "   \n",
        r#"{"content":"plain line","last":false}"#,
        "\r\n",
        "not json\n",
        r#"{"error":{"message":"x"}}"#,
        "\n",
        r#"{"result":{"content":7}}"#,
        "\n",
        r#"["c", true, null, null, "ts"]"#,
    ]
    .join("");
    let entries = log_entries(&text);
    assert_eq!(entries.len(), 4);
    assert_eq!(entries[0].content.as_deref(), Some("ERROR: failed"));
    assert_eq!(entries[0].pod_name.as_deref(), Some("p1"));
    assert_eq!(entries[0].time_stamp_str.as_deref(), Some("t1"));
    assert_eq!(entries[1].content.as_deref(), Some("plain line"));
    assert_eq!(entries[1].last, Some(false));
    assert!(entries[2].content.is_none());
    assert_eq!(entries[3].content.as_deref(), Some("c"));
    assert_eq!(entries[3].last, Some(true));
    assert_eq!(entries[3].time_stamp_str.as_deref(), Some("ts"));
}

#[test]
fn entries_need_readable_members() {
    let bad = JsonValue::Object(vec![JsonField { name: "last".to_string(), value: JsonValue::Str("yes".to_string()) }]);
    assert!(log_entry_from_json(&bad).is_none());
    assert!(log_entry_from_json(&JsonValue::Array(vec![JsonValue::Null])).is_none());
    assert!(log_entry_from_json(&JsonValue::Str("x".to_string())).is_none());
    let empty = JsonValue::Object(vec![]);
    let e = log_entry_from_json(&empty).unwrap();
    assert!(e.content.is_none() && e.last.is_none() && e.pod_name.is_none());
    assert!(entry_of_line(&None).is_none());
}

fn app(name: Option<&str>) -> Application {
    Application {
        metadata: name.map(|n| ObjectMeta {
            name: n.to_string(),
            namespace: None,
            labels: None,
            annotations: None,
            creation_timestamp: None,
        }),
        spec: None,
        status: None,
    }
}

#[test]
fn names_skip_applications_without_metadata() {
    let list = ApplicationList { metadata: None, items: vec![app(Some("a")), app(None), app(Some("b"))] };
    assert_eq!(application_names(list), vec!["a".to_string(), "b".to_string()]);
}

#[test]
fn every_listed_application_is_summarized() {
    let list = ApplicationList { metadata: None, items: vec![app(Some("a")), app(None)] };
    let s = summarize_applications(list);
    assert_eq!(s.len(), 2);
    assert_eq!(s[0].name, "a");
    assert_eq!(s[1].name, "");
}

#[test]
fn unreadable_events_give_an_empty_summary() {
    let s = events_summary(None);
    assert_eq!(s.total_events, 0);
    assert!(s.events.is_empty() && s.events_by_type.is_empty() && s.events_by_reason.is_empty());
    let s = events_summary(Some(EventList { metadata: None, items: vec![] }));
    assert_eq!(s.total_events, 0);
}

#[test]
fn raw_api_errors_keep_the_body_as_it_came() {
    assert_eq!(
        raw_api_error("404 Not Found", Some(r#"{"error":"not found","message":"gone"}"#.to_string())),
        r#"ArgoCD API error (404 Not Found): {"error":"not found","message":"gone"}"#
    );
    assert_eq!(raw_api_error("503 Service Unavailable", None), "ArgoCD API error (503 Service Unavailable): Unknown error");
}
