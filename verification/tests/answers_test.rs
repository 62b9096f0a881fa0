use argocd_mcp_server::answers::{
    data_block, get_application_answer, get_manifests_answer, get_resource_answer, history_answer,
    list_application_names_answer, list_applications_answer, list_resource_events_answer, patch_resource_answer,
    pod_logs_answer, refresh_answer, resource_tree_answer, revision_metadata_answer, rollback_answer,
    server_side_diff_answer, sync_answer, sync_windows_answer,
};
use argocd_mcp_server::models::{
    AnalyzedLogEntry, ApplicationDetailOutput, ApplicationHistorySummary, ApplicationResourceSummary,
    ApplicationRollbackSummary, ApplicationSummaryOutput, ApplicationSyncSummary, ApplicationSyncWindow,
    ApplicationSyncWindowsSummary, EventListSummary, EventSummary, LogLevel, ManifestSummary, ParsedManifest,
    PodLogsSummary, RefreshApplicationSummary, ResourceManifestSummary, ResourceNodeSummary, ResourceTreeSummary,
    RevisionHistorySummary, RevisionMetadataSummary, ServerSideDiffSummary,
};
use argocd_mcp_server::tools::PodLogsArgs;

fn s(x: &str) -> String {
    x.to_string()
}

fn rule() -> String {
    "─".repeat(80)
}

#[test]
fn data_follows_after_a_marker() {
    assert_eq!(data_block("{}"), "\n--- JSON Data ---\n{}");
}

#[test]
fn list_applications_text() {
    let apps = vec![ApplicationSummaryOutput {
        name: s("guestbook"),
        namespace: Some(s("argocd")),
        project: Some(s("default")),
        repo_url: Some(s("https://github.com/argoproj/argocd-example-apps")),
        target_revision: Some(s("HEAD")),
        destination_server: None,
        destination_namespace: Some(s("default")),
        sync_status: Some(s("Synced")),
        health_status: Some(s("Healthy")),
        auto_sync: Some(true),
    }];
    let a = list_applications_answer(&apps);
    assert!(a.with_data);
    assert_eq!(
        a.text,
        "Found 1 application(s):\n\n1. guestbook\n   Project: default\n   Repository: https://github.com/argoproj/argocd-example-apps\n   Target Revision: HEAD\n   Destination Namespace: default\n   Sync Status: Synced\n   Health Status: Healthy\n   Auto Sync: Enabled\n\n"
    );
    let none = list_applications_answer(&vec![]);
    assert!(!none.with_data);
    assert_eq!(none.text, "No applications found matching the criteria");
}

#[test]
fn list_application_names_text() {
    let names = vec![s("guestbook"), s("my \"app\"")];
    assert_eq!(
        list_application_names_answer(&names),
        "Found 2 application(s):\n\n1. guestbook\n2. my \"app\"\n\n--- Application Names Array ---\n[\"guestbook\", \"my \\\"app\\\"\"]"
    );
    assert_eq!(list_application_names_answer(&vec![]), "No applications found matching the criteria");
}

fn diff(name: &str, kind: &str, modified: bool) -> ServerSideDiffSummary {
    ServerSideDiffSummary {
        resource_name: s(name),
        kind: s(kind),
        namespace: Some(s("default")),
        modified,
        diff_summary: if modified { Some(s("Resource has differences between live and target state")) } else { None },
    }
}

#[test]
fn server_side_diff_text_groups_resources() {
    let d = vec![
        diff("guestbook-ui", "Service", false),
        diff("guestbook-ui", "Deployment", true),
        diff("redis-master", "Deployment", false),
    ];
    let a = server_side_diff_answer("guestbook", &d);
    assert!(a.with_data);
    assert_eq!(
        a.text,
        "Server-Side Diff for application 'guestbook'\nTotal resources: 3, Modified: 1, In sync: 2\n\nModified Resources:\n1. guestbook-ui (Deployment) in namespace 'default'\n   Status: Resource has differences between live and target state\n\nIn Sync Resources:\n1. guestbook-ui (Service) in namespace 'default'\n2. redis-master (Deployment) in namespace 'default'\n"
    );
    let a = server_side_diff_answer("guestbook", &vec![diff("a", "Pod", false)]);
    assert!(a.text.contains("Modified Resources:\n  (none)\n\nIn Sync Resources:\n1. a (Pod)"));
    let a = server_side_diff_answer("guestbook", &vec![]);
    assert_eq!(a.text, "No resources found for application 'guestbook'");
    assert!(!a.with_data);
}

#[test]
fn get_application_text() {
    let d = ApplicationDetailOutput {
        name: s("guestbook"),
        namespace: Some(s("argocd")),
        project: Some(s("default")),
        repo_url: Some(s("https://github.com/argoproj/argocd-example-apps")),
        path: Some(s("guestbook")),
        chart: None,
        target_revision: Some(s("HEAD")),
        destination_server: Some(s("https://kubernetes.default.svc")),
        destination_namespace: Some(s("default")),
        destination_name: None,
        sync_status: Some(s("Synced")),
        sync_revision: Some(s("abc123def456")),
        health_status: Some(s("Healthy")),
        health_message: Some(s("All resources are healthy")),
        auto_sync_enabled: Some(true),
        auto_sync_prune: Some(true),
        auto_sync_self_heal: Some(false),
        labels: Some(vec![(s("env"), s("production")), (s("team"), s("platform"))]),
        creation_timestamp: Some(s("2025-01-01T10:00:00Z")),
    };
    let a = get_application_answer(&d);
    assert!(a.with_data);
    assert_eq!(
        a.text,
        "Application: guestbook\n\nNamespace: argocd\nProject: default\nCreated: 2025-01-01T10:00:00Z\n\nSource:\n  Repository: https://github.com/argoproj/argocd-example-apps\n  Path: guestbook\n  Target Revision: HEAD\n\nDestination:\n  Server: https://kubernetes.default.svc\n  Namespace: default\n\nStatus:\n  Sync Status: Synced\n  Sync Revision: abc123def456\n  Health Status: Healthy\n  Health Message: All resources are healthy\n\nSync Policy:\n  Auto Sync: Enabled\n  Auto Prune: true\n  Self Heal: false\n\nLabels:\n  env: production\n  team: platform\n"
    );
}

#[test]
fn resource_tree_text_orders_counts() {
    let t = ResourceTreeSummary {
        total_nodes: 3,
        orphaned_nodes_count: 0,
        nodes_by_kind: vec![(s("Service"), 1), (s("Pod"), 2)],
        health_summary: vec![(s("Healthy"), 3)],
        sample_nodes: vec![ResourceNodeSummary {
            name: s("web"),
            kind: s("Pod"),
            namespace: Some(s("default")),
            health_status: Some(s("Healthy")),
            parent_count: Some(1),
            images: Some(vec![s("nginx:1"), s("sidecar:2")]),
        }],
    };
    let a = resource_tree_answer("guestbook", &t);
    assert_eq!(
        a.text,
        "Resource Tree for application 'guestbook'\nTotal resources: 3\nOrphaned resources: 0\n\nResources by Kind:\n  Pod: 2\n  Service: 1\n\nHealth Summary:\n  Healthy: 3\n\nSample Resources (showing up to 10):\n1. web (Pod) in namespace 'default' - Health: Healthy - 1 parent(s)\n   Images: nginx:1, sidecar:2\n"
    );
}

fn event(reason: &str, count: Option<i32>) -> EventSummary {
    EventSummary {
        name: None,
        event_type: Some(s("Normal")),
        reason: Some(s(reason)),
        message: Some(s("done")),
        involved_object_kind: Some(s("Pod")),
        involved_object_name: Some(s("web")),
        involved_object_namespace: None,
        source_component: Some(s("kubelet")),
        count,
        first_timestamp: Some(s("t1")),
        last_timestamp: Some(s("t2")),
    }
}

#[test]
fn events_text_lists_counts_and_events() {
    let summary = EventListSummary {
        total_events: 1,
        events_by_type: vec![(s("Normal"), 1)],
        events_by_reason: vec![(s("Pulled"), 1)],
        events: vec![event("Pulled", Some(3))],
    };
    let a = list_resource_events_answer("guestbook", &summary);
    assert_eq!(
        a.text,
        "Events for application 'guestbook'\nTotal events: 1\n\nEvents by Type:\n  Normal: 1\n\nEvents by Reason:\n  Pulled: 1\n\nRecent Events (showing up to 20):\n\n1. [Normal] Pulled - Pod/web\n   Message: done\n   Count: 3\n   First: t1 | Last: t2\n   Source: kubelet\n"
    );
    let reasons: Vec<(String, usize)> = (0..12).map(|i| (format!("R{}", i), 1)).collect();
    let events: Vec<EventSummary> = (0..22).map(|_| event("R0", Some(1))).collect();
    let big = EventListSummary { total_events: 22, events_by_type: vec![], events_by_reason: reasons, events };
    let a = list_resource_events_answer("guestbook", &big);
    assert!(a.text.contains("  R9: 1\n  ... and 2 more\n\n"));
    assert!(!a.text.contains("R10"));
    assert!(a.text.contains("\n20. [Normal] R0"));
    assert!(!a.text.contains("\n21. "));
    assert!(a.text.ends_with("\n... and 2 more events (total: 22)\n"));
    let empty = EventListSummary { total_events: 0, events_by_type: vec![], events_by_reason: vec![], events: vec![] };
    assert_eq!(list_resource_events_answer("x", &empty).text, "No events found for application 'x'");
}

fn log_args(errors_only: bool) -> PodLogsArgs {
    PodLogsArgs {
        application_name: s("guestbook"),
        namespace: None,
        pod_name: Some(s("web-1")),
        container: None,
        since_seconds: None,
        tail_lines: None,
        previous: None,
        filter: None,
        kind: None,
        group: None,
        resource_name: None,
        app_namespace: None,
        project: None,
        errors_only,
    }
}

#[test]
fn pod_logs_text_marks_levels() {
    let summary = PodLogsSummary {
        total_lines: 2,
        error_count: 1,
        warning_count: 0,
        potential_issue_count: 1,
        logs_by_level: vec![(s("ERROR"), 1), (s("UNKNOWN"), 1)],
        pod_name: Some(s("web-1")),
        container: None,
        tail_lines: Some(100),
        filtered: false,
        log_entries: vec![
            AnalyzedLogEntry {
                content: s("ERROR boom"),
                level: LogLevel::Error,
                pod_name: None,
                timestamp: Some(s("t1")),
                is_error: true,
                is_warning: false,
                potential_issue: true,
            },
            AnalyzedLogEntry {
                content: s("hello"),
                level: LogLevel::Unknown,
                pod_name: None,
                timestamp: None,
                is_error: false,
                is_warning: false,
                potential_issue: false,
            },
        ],
    };
    let a = pod_logs_answer(&log_args(false), &summary, Some(100));
    let expected = format!(
        "Pod Logs for application 'guestbook'\nPod: web-1\nTail Lines: 100\n\nTotal lines: 2\n\n📊 Log Analysis:\n  ❌ Errors: 1\n  🔍 Potential Issues: 1\n\nLogs by Level:\n  ERROR: 1\n  UNKNOWN: 1\n\n📝 Log Entries (showing 2):\n{}\n❌[t1]  ERROR: \n   ERROR boom\n\n   UNKNOWN\n   hello\n{}\n\n💡 Tip: Use 'errors_only: true' to filter 1 errors and 1 potential issues\n",
        rule(),
        rule()
    );
    assert_eq!(a.text, expected);
    let empty = PodLogsSummary {
        total_lines: 0,
        error_count: 0,
        warning_count: 0,
        potential_issue_count: 0,
        logs_by_level: vec![],
        pod_name: None,
        container: None,
        tail_lines: None,
        filtered: true,
        log_entries: vec![],
    };
    let a = pod_logs_answer(&log_args(true), &empty, Some(100));
    assert!(!a.with_data);
    assert_eq!(a.text, "No logs found for application 'guestbook' pod 'web-1' (no errors or warnings detected)");
}

#[test]
fn manifests_text_previews_five_lines() {
    let summary = ManifestSummary {
        total_manifests: 1,
        manifests_by_kind: vec![(s("ConfigMap"), 1)],
        revision: Some(s("abc")),
        namespace: None,
        server: None,
        source_type: Some(s("Directory")),
        commands: Some(vec![s("kustomize build")]),
        manifests: vec![ParsedManifest {
            kind: s("ConfigMap"),
            api_version: s("v1"),
            name: s("cfg"),
            namespace: Some(s("default")),
            raw_yaml: s("a: 1\nb: 2\nc: 3\nd: 4\ne: 5\nf: 6\ng: 7"),
        }],
    };
    let a = get_manifests_answer("guestbook", &summary);
    let expected = format!(
        "Manifests for application 'guestbook'\nRevision: abc\nSource Type: Directory\n\nTotal manifests: 1\n\nManifests by Kind:\n  ConfigMap: 1\n\nCommands used to generate manifests (1):\n  1. kustomize build\n\n📄 Manifest Summaries (1)\n{}\n\n1. ConfigMap - v1/cfg\n   Namespace: default\n   Preview:\n   a: 1\n   b: 2\n   c: 3\n   d: 4\n   e: 5\n   ... (2 more lines)\n\n{}\n\n💡 Tip: Use this to review what will be deployed and validate configurations\n",
        rule(),
        rule()
    );
    assert_eq!(a.text, expected);
}

#[test]
fn revision_metadata_text() {
    let m = RevisionMetadataSummary {
        author: Some(s("Jane <jane@example.com>")),
        date: Some(s("2025-01-01")),
        message_short: Some(s("Fix bug")),
        message_full: Some(s("Fix bug\n\nDetails")),
        tag_count: 1,
        tags: Some(vec![s("v1.0")]),
        is_signed: true,
        signature_summary: None,
    };
    assert_eq!(
        revision_metadata_answer("guestbook", "abc123", &m).text,
        "Revision Metadata for application 'guestbook' at revision 'abc123'\n\nAuthor: Jane <jane@example.com>\nDate: 2025-01-01\n\nCommit Message:\n  Fix bug\n\nFull Message:\n  Fix bug\n  \n  Details\n\nTags (1):\n  - v1.0\n\nSignature Status: Signed\n"
    );
    let m = RevisionMetadataSummary {
        author: None,
        date: None,
        message_short: None,
        message_full: Some(s("one line")),
        tag_count: 0,
        tags: None,
        is_signed: false,
        signature_summary: None,
    };
    assert_eq!(
        revision_metadata_answer("a", "r", &m).text,
        "Revision Metadata for application 'a' at revision 'r'\n\n\nTags: None\n\nSignature Status: Not signed\n"
    );
}

#[test]
fn sync_windows_text() {
    let w = ApplicationSyncWindowsSummary {
        total_windows: 1,
        windows: vec![ApplicationSyncWindow {
            kind: None,
            schedule: Some(s("0 22 * * *")),
            duration: Some(s("1h")),
            applications: Some(vec![s("a"), s("b")]),
            namespaces: Some(vec![]),
            clusters: None,
            manual_sync_enabled: Some(false),
            start_time: None,
            end_time: None,
        }],
    };
    assert_eq!(
        sync_windows_answer("guestbook", &w).text,
        "Sync Windows for application 'guestbook' (1 total):\n\n1. Kind: Unknown\n   Schedule: 0 22 * * *\n   Duration: 1h\n   Manual Sync Enabled: false\n   Applications: a, b\n\n"
    );
    let none = ApplicationSyncWindowsSummary { total_windows: 0, windows: vec![] };
    assert_eq!(sync_windows_answer("g", &none).text, "No sync windows found for application 'g'");
}

#[test]
fn rollback_text() {
    let r = ApplicationRollbackSummary {
        name: s("guestbook"),
        rolled_back_to_id: 2,
        dry_run: true,
        sync_status: Some(s("OutOfSync")),
        sync_revision: None,
        health_status: None,
        target_revision: Some(s("HEAD")),
        prune_enabled: false,
    };
    assert_eq!(
        rollback_answer(&r).text,
        "Rollback (Dry Run) for application 'guestbook'\n\nRolled back to History ID: 2\nTarget Revision: HEAD\n\nStatus:\n  Sync Status: OutOfSync\n\nOptions:\n  Dry Run: true\n  Prune Enabled: false\n\n⚠️  Note: This was a dry run. No actual changes were made.\n    Run without dry_run=true to perform the actual rollback.\n"
    );
}

#[test]
fn sync_text_warns_when_still_out_of_sync() {
    let r = ApplicationSyncSummary {
        name: s("guestbook"),
        dry_run: false,
        sync_status: Some(s("OutOfSync")),
        sync_revision: Some(s("abc")),
        health_status: Some(s("Progressing")),
        target_revision: None,
        prune_enabled: true,
        force_enabled: false,
        sync_options: vec![s("Validate=false"), s("CreateNamespace=true")],
        resources_count: Some(2),
    };
    assert_eq!(
        sync_answer(&r).text,
        "Sync Completed for application 'guestbook'\n\nCurrent Sync Revision: abc\n\nStatus:\n  Sync Status: OutOfSync\n  Health Status: Progressing\n\nConfiguration:\n  Dry Run: false\n  Prune Enabled: true\n  Force Enabled: false\n  Resources Synced: 2 (partial sync)\n  Sync Options: Validate=false, CreateNamespace=true\n\n✅ Sync completed successfully.\n    Monitor the application to ensure it reaches the desired state.\n    Note: Application may still be syncing. Check status again in a few moments.\n"
    );
}

fn resource(manifest: &str) -> ApplicationResourceSummary {
    ApplicationResourceSummary {
        app_name: s("guestbook"),
        kind: s("ConfigMap"),
        resource_name: s("cfg"),
        namespace: Some(s("default")),
        version: s("v1"),
        group: Some(s("")),
        manifest_summary: ResourceManifestSummary {
            api_version: Some(s("v1")),
            kind: Some(s("ConfigMap")),
            name: Some(s("cfg")),
            namespace: None,
            labels: Some((0..6).map(|i| (format!("k{}", i), format!("v{}", i))).collect()),
            annotations_count: Some(0),
            creation_timestamp: Some(s("t0")),
            status_summary: None,
        },
        manifest: s(manifest),
    }
}

#[test]
fn resource_text_shows_the_manifest() {
    let a = get_resource_answer(&resource("apiVersion: v1\nkind: ConfigMap"));
    let expected = format!(
        "Resource: cfg (ConfigMap)\nApplication: guestbook\nVersion: v1\nNamespace: default\n\nManifest Summary:\n  API Version: v1\n  Kind: ConfigMap\n  Name: cfg\n  Labels (6): \n    k0: v0\n    k1: v1\n    k2: v2\n    k3: v3\n    k4: v4\n    ... and 1 more\n  Annotations Count: 0\n  Created: t0\n\n📄 Full Manifest:\n{}\napiVersion: v1\nkind: ConfigMap\n{}\n",
        rule(),
        rule()
    );
    assert_eq!(a.text, expected);
    let long: Vec<String> = (0..55).map(|i| format!("l{}", i)).collect();
    let a = patch_resource_answer(&resource(&long.join("\n")));
    assert!(a.text.starts_with("✅ Patched Resource: cfg (ConfigMap)\n"));
    assert!(a.text.contains("\nUpdated Manifest Summary:\n"));
    assert!(!a.text.contains("Created: t0"));
    assert!(a.text.contains("l49\n\n... (5 more lines, 55 total)\n"));
    assert!(a.text.ends_with("\n💡 Tip: Monitor the resource to ensure it reaches the desired state.\n"));
}

fn deployment(id: i64, automated: bool) -> RevisionHistorySummary {
    RevisionHistorySummary {
        id,
        revision: s("abcdef12"),
        revision_full: s("abcdef1234"),
        deployed_at: s("2025-01-02"),
        deploy_duration: None,
        source_repo: Some(s("https://repo")),
        source_path: None,
        source_target_revision: None,
        initiated_by: Some(s(if automated { "Automated" } else { "alice" })),
        automated,
    }
}

#[test]
fn history_text_marks_the_current_deployment() {
    let h = ApplicationHistorySummary {
        application_name: s("guestbook"),
        total_entries: 2,
        entries: vec![deployment(2, true), deployment(1, false)],
    };
    let expected = format!(
        "📜 Deployment History for 'guestbook'\n{}\n\nTotal deployments: 2\n\n{r}\n\n👉 1. History ID: 2 (Current)\n   Revision: abcdef12 (abcdef1234)\n   Deployed: 2025-01-02\n   Initiated by: Automated 🤖\n   Repository: https://repo\n{r}\n\n   2. History ID: 1 \n   Revision: abcdef12 (abcdef1234)\n   Deployed: 2025-01-02\n   Initiated by: alice\n   Repository: https://repo\n{r}\n\n💡 Tips:\n   - Use the History ID with 'rollback_application' to revert to a previous version\n   - Current deployment is marked with 👉\n   - 🤖 indicates automated deployments\n",
        "═".repeat(80),
        r = rule()
    );
    assert_eq!(history_answer(&h).text, expected);
    let many = ApplicationHistorySummary {
        application_name: s("g"),
        total_entries: 25,
        entries: (0..25).map(|i| deployment(25 - i, false)).collect(),
    };
    let t = history_answer(&many).text;
    assert!(t.contains("20. History ID: 6 \n"));
    assert!(!t.contains("21. History ID"));
    assert!(t.contains("\n... and 5 more deployment(s) (showing 20 most recent)\n"));
    let none = ApplicationHistorySummary { application_name: s("g"), total_entries: 0, entries: vec![] };
    assert!(history_answer(&none).text.ends_with(
        "\n⚠️  No deployment history available for this application.\n   This could mean the application has never been synced.\n"
    ));
}

#[test]
fn refresh_text_names_the_changes() {
    let r = RefreshApplicationSummary {
        application_name: s("guestbook"),
        refresh_type: s("hard"),
        sync_status_before: s("Synced"),
        sync_status_after: s("OutOfSync"),
        health_status_before: s("Healthy"),
        health_status_after: s("Healthy"),
        sync_revision_before: None,
        sync_revision_after: Some(s("def")),
        sync_status_changed: true,
        health_status_changed: false,
        revision_changed: true,
        repo_url: Some(s("Unknown")),
        target_revision: None,
    };
    let expected = format!(
        "🔄 Refreshed Application 'guestbook'\n{}\n\nRefresh Type: hard\nRepository: Unknown\n\n{r}\n\n📊 Status Comparison:\n\n🔄  Sync Status:\n   Before: Synced\n   After:  OutOfSync\n   ➜ Changed!\n\n✓  Health Status:\n   Before: Healthy\n   After:  Healthy\n   ➜ No change\n\n🔄  Sync Revision:\n   Before: None\n   After:  def\n   ➜ Changed!\n\n{r}\n\n✅ Refresh completed - Application state was updated\n\nChanges detected in: sync status, revision\n\n💡 Tips:\n   - Refresh does not modify cluster resources, only ArgoCD's cache\n   - Use 'hard' refresh to force re-fetch from Git repository\n   - If sync status changed to 'OutOfSync', use 'sync_application' to deploy\n",
        "═".repeat(80),
        r = rule()
    );
    assert_eq!(refresh_answer(&r).text, expected);
}
