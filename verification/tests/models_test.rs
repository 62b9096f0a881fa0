use argocd_mcp_server::models::{
    Application, ApplicationHistorySummary, ApplicationResourceSummary, ApplicationSource, ApplicationSpec,
    ApplicationStatus, ApplicationTree, HealthStatus, LogEntry, LogLevel, ManifestResponse, ManifestSummary,
    OperationInitiator, ParsedManifest, PodLogsSummary, RefreshApplicationSummary, ResourceNode, RevisionHistory,
    RevisionHistorySummary, SyncStatus, ResourceTreeSummary,
};
use argocd_mcp_server::revision::sort_newest_first;
use argocd_mcp_server::tally::tally_keys;
use argocd_mcp_server::report::sort_by_count;
use argocd_mcp_server::text::{is_blank, lines_of};
use argocd_mcp_server::url::{add_multi_param, add_param, append_query};

fn s(x: &str) -> String {
    x.to_string()
}

fn entry(content: &str) -> LogEntry {
    LogEntry { content: Some(s(content)), last: None, pod_name: Some(s("p")), time_stamp: None, time_stamp_str: None }
}

#[test]
fn log_levels_are_detected_by_severity() {
    assert_eq!(LogLevel::detect("FATAL: disk gone, ERROR too"), LogLevel::Fatal);
    assert_eq!(LogLevel::detect("critical failure"), LogLevel::Fatal);
    assert_eq!(LogLevel::detect("[err] connection"), LogLevel::Error);
    assert_eq!(LogLevel::detect("Warning: low memory"), LogLevel::Warning);
    assert_eq!(LogLevel::detect("debug: x=1"), LogLevel::Debug);
    assert_eq!(LogLevel::detect("INFO started"), LogLevel::Info);
    assert_eq!(LogLevel::detect("hello world"), LogLevel::Unknown);
    assert_eq!(LogLevel::Warning.as_str(), "WARNING");
    assert_eq!(LogLevel::Unknown.as_str(), "UNKNOWN");
    assert_eq!(LogLevel::Fatal.as_str(), "FATAL");
}

#[test]
fn errors_only_keeps_potential_issues() {
    let entries = vec![entry("INFO ok"), entry("ERROR bad"), entry("request timeout"), entry("WARN slow")];
    let all = PodLogsSummary::from_entries(entries.clone(), Some(s("p")), None, Some(100), false);
    assert_eq!(all.total_lines, 4);
    assert_eq!(all.error_count, 1);
    assert_eq!(all.warning_count, 1);
    assert_eq!(all.potential_issue_count, 3);
    assert!(!all.filtered);
    let issues = PodLogsSummary::from_entries(entries, Some(s("p")), None, Some(100), true);
    assert_eq!(issues.total_lines, 3);
    assert!(issues.filtered);
    assert_eq!(issues.log_entries[0].content, "ERROR bad");
    assert_eq!(issues.log_entries[1].content, "request timeout");
    assert_eq!(issues.log_entries[2].level, LogLevel::Warning);
    assert_eq!(issues.tail_lines, Some(100));
}

fn history(id: i64, revision: &str) -> RevisionHistory {
    RevisionHistory {
        id,
        revision: Some(s(revision)),
        deployed_at: Some(s("2025-01-02T00:00:00Z")),
        deploy_started_at: Some(s("2025-01-01T23:59:00Z")),
        source: Some(ApplicationSource {
            repo_url: s("https://repo"),
            path: None,
            target_revision: Some(s("HEAD")),
            chart: Some(s("chart")),
        }),
        sources: None,
        revisions: None,
        initiated_by: Some(OperationInitiator { username: None, automated: Some(true) }),
    }
}

fn app_with_history(h: Vec<RevisionHistory>) -> Application {
    Application {
        metadata: None,
        spec: None,
        status: Some(ApplicationStatus { health: None, sync: None, summary: None, history: Some(h) }),
    }
}

#[test]
fn history_is_newest_first_and_stable() {
    let app = app_with_history(vec![
        history(1, "aaaaaaaaaa"),
        history(3, "cccccccccc"),
        history(2, "bbbbbbbbbb"),
        history(3, "dddddddddd"),
    ]);
    let h = ApplicationHistorySummary::from_application(s("guestbook"), app);
    assert_eq!(h.application_name, "guestbook");
    assert_eq!(h.total_entries, 4);
    let ids: Vec<i64> = h.entries.iter().map(|e| e.id).collect();
    assert_eq!(ids, vec![3, 3, 2, 1]);
    assert_eq!(h.entries[0].revision_full, "cccccccccc");
    assert_eq!(h.entries[1].revision_full, "dddddddddd");
    assert_eq!(h.entries[0].revision, "cccccccc");
    assert_eq!(h.entries[0].deploy_duration.as_deref(), Some("from 2025-01-01T23:59:00Z to 2025-01-02T00:00:00Z"));
    assert_eq!(h.entries[0].source_path.as_deref(), Some("chart"));
    assert_eq!(h.entries[0].initiated_by.as_deref(), Some("Automated"));
    assert!(h.entries[0].automated);
}

#[test]
fn history_of_an_application_without_status_is_empty() {
    let app = Application { metadata: None, spec: None, status: None };
    let h = ApplicationHistorySummary::from_application(s("g"), app);
    assert_eq!(h.total_entries, 0);
    assert!(h.entries.is_empty());
}

#[test]
fn short_revisions_keep_eight_characters() {
    let r = RevisionHistorySummary::from_revision_history(history(1, "ééééé"));
    assert_eq!(r.revision, "ééééé");
    let r = RevisionHistorySummary::from_revision_history(history(1, "aéééééééééé"));
    assert_eq!(r.revision, "aééééééé");
    let r = RevisionHistorySummary::from_revision_history(history(1, "0123456789abcdef"));
    assert_eq!(r.revision, "01234567");
    assert_eq!(r.revision_full, "0123456789abcdef");
    let app = app_with_history(vec![history(1, "aéééé")]);
    let h = ApplicationHistorySummary::from_application(s("g"), app);
    assert_eq!(h.entries[0].revision, "aéééé");
    let mut none = history(1, "x");
    none.revision = None;
    let r = RevisionHistorySummary::from_revision_history(none);
    assert_eq!(r.revision_full, "unknown");
    assert_eq!(r.revision, "unknown");
}

fn summary(id: i64, tag: &str) -> RevisionHistorySummary {
    RevisionHistorySummary {
        id,
        revision: s(tag),
        revision_full: s(tag),
        deployed_at: s("d"),
        deploy_duration: None,
        source_repo: None,
        source_path: None,
        source_target_revision: None,
        initiated_by: None,
        automated: false,
    }
}

#[test]
fn sorting_keeps_equal_ids_in_order() {
    let sorted = sort_newest_first(vec![summary(5, "a"), summary(7, "b"), summary(5, "c"), summary(-1, "d"), summary(7, "e")]);
    let tags: Vec<&str> = sorted.iter().map(|e| e.revision.as_str()).collect();
    assert_eq!(tags, vec!["b", "e", "a", "c", "d"]);
    assert!(sort_newest_first(vec![]).is_empty());
}

#[test]
fn counts_are_tallied_in_order_of_appearance() {
    let t = tally_keys(&vec![s("Pod"), s("Service"), s("Pod"), s("Pod"), s("Deployment")]);
    assert_eq!(t, vec![(s("Pod"), 3), (s("Service"), 1), (s("Deployment"), 1)]);
    let sorted = sort_by_count(&vec![(s("a"), 1), (s("b"), 3), (s("c"), 1), (s("d"), 2)]);
    assert_eq!(sorted, vec![(s("b"), 3), (s("d"), 2), (s("a"), 1), (s("c"), 1)]);
}

fn node(kind: Option<&str>, health: Option<&str>) -> ResourceNode {
    ResourceNode {
        group: None,
        version: None,
        kind: kind.map(s),
        namespace: None,
        name: Some(s("n")),
        uid: None,
        parent_refs: None,
        info: None,
        networking_info: None,
        resource_version: None,
        images: None,
        health: health.map(|h| HealthStatus { status: s(h), message: None }),
        created_at: None,
    }
}

#[test]
fn tree_counts_kinds_and_health() {
    let nodes: Vec<ResourceNode> = (0..12)
        .map(|i| node(if i % 3 == 0 { Some("Pod") } else { Some("Service") }, if i < 2 { Some("Degraded") } else { None }))
        .collect();
    let t = ResourceTreeSummary::from_tree(ApplicationTree { nodes, orphaned_nodes: Some(vec![node(None, None)]), hosts: None });
    assert_eq!(t.total_nodes, 12);
    assert_eq!(t.orphaned_nodes_count, 1);
    assert_eq!(t.nodes_by_kind, vec![(s("Pod"), 4), (s("Service"), 8)]);
    assert_eq!(t.sample_nodes.len(), 10);
    assert!(t.health_summary.iter().any(|(k, c)| k == "Degraded" && *c == 2));
}

#[test]
fn yaml_manifests_are_parsed() {
    let m = ParsedManifest::from_yaml("apiVersion: v1\nkind: ConfigMap\nmetadata:\n  name: cfg\n  namespace: default\n")
        .unwrap();
    assert_eq!(m.kind, "ConfigMap");
    assert_eq!(m.api_version, "v1");
    assert_eq!(m.name, "cfg");
    assert_eq!(m.namespace.as_deref(), Some("default"));
    let m = ParsedManifest::from_yaml("{}").unwrap();
    assert_eq!(m.kind, "Unknown");
    assert!(ParsedManifest::from_yaml("a: [unclosed").is_err());
}

#[test]
fn manifest_summary_counts_kinds() {
    let response = ManifestResponse {
        manifests: Some(vec![
            s(r#"{"apiVersion":"v1","kind":"Service","metadata":{"name":"a"}}"#),
            s("kind: Service\nmetadata:\n  name: b\n"),
            s("kind: Deployment\n"),
        ]),
        namespace: Some(s("default")),
        revision: Some(s("abc")),
        server: None,
        source_type: None,
        commands: None,
        verify_result: None,
    };
    let m = ManifestSummary::from_response(response);
    assert_eq!(m.total_manifests, 3);
    assert_eq!(m.manifests_by_kind, vec![(s("Service"), 2), (s("Deployment"), 1)]);
    assert_eq!(m.manifests[1].name, "b");
}

#[test]
fn long_resource_manifests_are_truncated() {
    let long = "x".repeat(10001);
    let r = ApplicationResourceSummary::try_from_manifest(
        s("app"), s("ConfigMap"), s("cfg"), None, s("v1"), None, long,
    )
    .unwrap();
    assert_eq!(r.manifest, format!("{}... (truncated, 10001 total chars)", "x".repeat(10000)));
    let exact = "y".repeat(10000);
    let r = ApplicationResourceSummary::try_from_manifest(
        s("app"), s("ConfigMap"), s("cfg"), None, s("v1"), None, exact.clone(),
    )
    .unwrap();
    assert_eq!(r.manifest, exact);
    let split = format!("{}é", "z".repeat(9999));
    assert!(ApplicationResourceSummary::try_from_manifest(s("a"), s("k"), s("r"), None, s("v"), None, split).is_none());
}

fn app_state(sync: &str, health: Option<&str>, revision: Option<&str>) -> Application {
    Application {
        metadata: None,
        spec: Some(ApplicationSpec {
            source: Some(ApplicationSource { repo_url: s("https://repo"), path: None, target_revision: Some(s("main")), chart: None }),
            destination: None,
            project: None,
            sync_policy: None,
        }),
        status: Some(ApplicationStatus {
            health: health.map(|h| HealthStatus { status: s(h), message: None }),
            sync: Some(SyncStatus { status: s(sync), revision: revision.map(s) }),
            summary: None,
            history: None,
        }),
    }
}

#[test]
fn refresh_compares_states() {
    let before = app_state("Synced", None, Some("a"));
    let after = app_state("OutOfSync", None, Some("a"));
    let r = RefreshApplicationSummary::from_states(s("g"), None, before, after);
    assert_eq!(r.refresh_type, "hard");
    assert_eq!(r.sync_status_before, "Synced");
    assert_eq!(r.sync_status_after, "OutOfSync");
    assert_eq!(r.health_status_before, "Unknown");
    assert!(r.sync_status_changed);
    assert!(!r.health_status_changed);
    assert!(!r.revision_changed);
    assert_eq!(r.repo_url.as_deref(), Some("https://repo"));
    assert_eq!(r.target_revision.as_deref(), Some("main"));
    let r = RefreshApplicationSummary::from_states(
        s("g"),
        Some(s("normal")),
        app_state("Synced", Some("Healthy"), None),
        Application { metadata: None, spec: None, status: None },
    );
    assert_eq!(r.refresh_type, "normal");
    assert!(r.revision_changed == false);
    assert!(r.sync_status_changed);
    assert_eq!(r.sync_status_after, "Unknown");
    assert_eq!(r.repo_url.as_deref(), Some("Unknown"));
}

#[test]
fn lines_follow_str_lines() {
    assert_eq!(lines_of("a\nb\r\nc"), vec![s("a"), s("b"), s("c")]);
    assert_eq!(lines_of("a\n\n"), vec![s("a"), s("")]);
    assert_eq!(lines_of("x\r"), vec![s("x\r")]);
    assert!(lines_of("").is_empty());
    assert!(is_blank(" \t\u{a0}\u{3000}"));
    assert!(!is_blank(" a "));
    assert!(is_blank(""));
}

#[test]
fn query_strings_join_encoded_parameters() {
    let mut params: Vec<(String, String)> = Vec::new();
    add_param(&mut params, "name", "my-app/namespace");
    add_multi_param(&mut params, "projects", &Some(vec![s("ü"), s("a b")]));
    let mut url = s("https://h/api");
    append_query(&mut url, &params);
    assert_eq!(url, "https://h/api?name=my-app%2Fnamespace&projects=%C3%BC&projects=a%20b");
    let mut bare = s("https://h/api");
    append_query(&mut bare, &Vec::new());
    assert_eq!(bare, "https://h/api");
}

#[test]
fn level_names_detect_back_to_their_level() {
    for level in [LogLevel::Fatal, LogLevel::Error, LogLevel::Warning, LogLevel::Info, LogLevel::Debug, LogLevel::Unknown] {
        assert_eq!(LogLevel::detect(level.as_str()), level);
    }
}

#[test]
fn errors_only_keeps_the_potential_issues_in_order() {
    let entries = vec![
        entry("INFO starting"),
        entry("ERROR boom"),
        entry("request failed, retrying"),
        entry("WARN slow"),
        entry("DEBUG tick"),
    ];
    let all = PodLogsSummary::from_entries(entries.clone(), None, None, Some(100), false);
    let issues = PodLogsSummary::from_entries(entries, None, None, Some(100), true);
    assert!(issues.filtered && !all.filtered);
    let kept: Vec<String> = all.log_entries.iter().filter(|e| e.potential_issue).map(|e| e.content.clone()).collect();
    let got: Vec<String> = issues.log_entries.iter().map(|e| e.content.clone()).collect();
    assert_eq!(got, kept);
    assert_eq!(got, vec![s("ERROR boom"), s("request failed, retrying"), s("WARN slow")]);
    assert_eq!(issues.total_lines, 3);
    assert_eq!(issues.potential_issue_count, all.potential_issue_count);
    assert_eq!(issues.error_count, all.error_count);
    assert_eq!(issues.warning_count, all.warning_count);
}
