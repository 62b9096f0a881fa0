use argocd_mcp_server::answers::instructions;
use argocd_mcp_server::models::{Application, ObjectMeta};
use argocd_mcp_server::tools::{
    retry_strategy_of, rollback_summary_of, sync_resources_of, sync_summary_of, tool_failure, ArgocdMcpHandler, GetApplicationHistoryArgs,
    ListApplicationNamesArgs, ListApplicationsArgs, PatchResourceArgs, PodLogsArgs, RefreshApplicationArgs, RetryArgs,
    RollbackApplicationArgs, SyncApplicationArgs, SyncResourceArgs, Tool,
};

const NOT_INITIALIZED: &str =
    "ArgoCD client not initialized. Please ensure ARGOCD_BASE_URL and ARGOCD_ACCESS_TOKEN environment variables are set.";

fn ready(read_only: bool) -> ArgocdMcpHandler {
    let mut h = ArgocdMcpHandler::with_read_only(read_only);
    h.initialize("https://argocd.example.com".to_string(), "test-token".to_string()).unwrap();
    h
}

fn rollback_args() -> RollbackApplicationArgs {
    RollbackApplicationArgs {
        application_name: "guestbook".to_string(),
        id: 1,
        dry_run: None,
        prune: None,
        app_namespace: None,
        project: None,
    }
}

fn sync_args() -> SyncApplicationArgs {
    SyncApplicationArgs {
        application_name: "guestbook".to_string(),
        revision: None,
        dry_run: None,
        prune: None,
        force: None,
        resources: None,
        sync_options: None,
        retry: None,
        app_namespace: None,
        project: None,
    }
}

fn patch_args() -> PatchResourceArgs {
    PatchResourceArgs {
        application_name: "guestbook".to_string(),
        namespace: None,
        resource_name: "web".to_string(),
        version: "v1".to_string(),
        group: None,
        kind: "Deployment".to_string(),
        patch: "{}".to_string(),
        patch_type: None,
        app_namespace: None,
        project: None,
    }
}

#[test]
fn test_handler_default_not_read_only() {
    let handler = ArgocdMcpHandler::new();
    assert!(!handler.is_read_only());
}

#[test]
fn test_handler_with_read_only_false() {
    let handler = ArgocdMcpHandler::with_read_only(false);
    assert!(!handler.is_read_only());
}

#[test]
fn test_handler_with_read_only_true() {
    let handler = ArgocdMcpHandler::with_read_only(true);
    assert!(handler.is_read_only());
}

#[test]
fn test_handler_from_env_default() {
    let handler = ArgocdMcpHandler::from_env(None);
    assert!(!handler.is_read_only());
}

#[test]
fn test_handler_from_env_true() {
    let handler = ArgocdMcpHandler::from_env(Some("true".to_string()));
    assert!(handler.is_read_only());
}

#[test]
fn test_handler_from_env_false() {
    let handler = ArgocdMcpHandler::from_env(Some("false".to_string()));
    assert!(!handler.is_read_only());
}

#[test]
fn test_handler_from_env_invalid() {
    let handler = ArgocdMcpHandler::from_env(Some("invalid".to_string()));
    assert!(!handler.is_read_only());
}

#[test]
fn test_handler_from_env_1() {
    let handler = ArgocdMcpHandler::from_env(Some("1".to_string()));
    assert!(!handler.is_read_only());
}

#[test]
fn test_handler_from_env_yes() {
    let handler = ArgocdMcpHandler::from_env(Some("yes".to_string()));
    assert!(!handler.is_read_only());
}

#[test]
fn test_handler_from_env_case_sensitive() {
    let handler = ArgocdMcpHandler::from_env(Some("True".to_string()));
    assert!(!handler.is_read_only());
}

#[test]
fn test_handler_from_env_false_uppercase() {
    let handler = ArgocdMcpHandler::from_env(Some("FALSE".to_string()));
    assert!(!handler.is_read_only());
}

#[test]
fn test_read_only_server_info() {
    assert!(instructions(true).contains("READ-ONLY MODE"));
    assert!(!instructions(false).contains("READ-ONLY MODE"));
}

#[test]
fn test_read_only_mode_mentions_env_var() {
    assert!(instructions(false).contains("ARGOCD_READ_ONLY"));
}

#[test]
fn instructions_start_with_the_server_name() {
    assert!(instructions(false).starts_with("ArgoCD MCP Server - provides tools to interact with ArgoCD API."));
    assert!(instructions(true).starts_with(
        "ArgoCD MCP Server [READ-ONLY MODE: All tools are read-only GET requests only] - provides tools"
    ));
}

#[test]
fn test_multiple_handlers_independent() {
    let handler1 = ArgocdMcpHandler::with_read_only(true);
    let handler2 = ArgocdMcpHandler::with_read_only(false);
    assert!(handler1.is_read_only());
    assert!(!handler2.is_read_only());
}

#[test]
fn test_handler_clone_preserves_read_only() {
    let handler1 = ArgocdMcpHandler::with_read_only(true);
    let handler2 = handler1.clone();
    assert!(handler1.is_read_only());
    assert!(handler2.is_read_only());
}

#[test]
fn test_handler_creation() {
    let handler = ArgocdMcpHandler::new();
    assert!(!handler.is_initialized());
    let handler = ArgocdMcpHandler::default();
    assert!(!handler.is_initialized() && !handler.is_read_only());
}

#[test]
fn test_handler_initialization() {
    let mut handler = ArgocdMcpHandler::new();
    let result = handler.initialize("https://argocd.example.com".to_string(), "test-token".to_string());
    assert!(result.is_ok());
    assert!(handler.is_initialized());
}

#[test]
fn failed_initialization_leaves_the_handler_unset() {
    let mut handler = ArgocdMcpHandler::with_read_only(true);
    assert_eq!(
        handler.initialize("https://argocd.example.com".to_string(), "".to_string()).err().unwrap(),
        "access_token cannot be empty"
    );
    assert!(!handler.is_initialized());
    assert!(handler.is_read_only());
}

#[test]
fn tools_need_an_initialized_client() {
    let h = ArgocdMcpHandler::new();
    let args = ListApplicationsArgs { name: None, projects: None, selector: None, repo: None, app_namespace: None };
    assert_eq!(h.list_applications_request(&args).err().unwrap(), NOT_INITIALIZED);
    assert_eq!(h.rollback_application_request(&rollback_args()).err().unwrap(), NOT_INITIALIZED);
    let ro = ArgocdMcpHandler::with_read_only(true);
    assert_eq!(ro.sync_application_request(&sync_args()).err().unwrap(), NOT_INITIALIZED);
}

#[test]
fn read_only_mode_refuses_write_tools() {
    let h = ready(true);
    assert_eq!(
        h.rollback_application_request(&rollback_args()).err().unwrap(),
        "Cannot rollback application in read-only mode. This operation modifies application state."
    );
    assert_eq!(
        h.sync_application_request(&sync_args()).err().unwrap(),
        "Cannot sync application in read-only mode. This operation modifies application state."
    );
    assert_eq!(
        h.patch_resource_request(&patch_args()).err().unwrap(),
        "Cannot patch resource in read-only mode. This operation modifies resource state."
    );
    let args = ListApplicationNamesArgs { projects: None, selector: None, repo: None, app_namespace: None };
    assert!(h.list_application_names_request(&args).is_ok());
}

#[test]
fn write_tools_run_outside_read_only_mode() {
    let h = ready(false);
    assert!(h.rollback_application_request(&rollback_args()).is_ok());
    assert!(h.sync_application_request(&sync_args()).is_ok());
    assert!(h.patch_resource_request(&patch_args()).is_ok());
}

#[test]
fn pod_logs_ask_for_a_hundred_lines_by_default() {
    let h = ready(true);
    let args = PodLogsArgs {
        application_name: "guestbook".to_string(),
        namespace: None,
        pod_name: None,
        container: None,
        since_seconds: None,
        tail_lines: None,
        previous: None,
        filter: None,
        kind: Some("Deployment".to_string()),
        group: None,
        resource_name: Some("web".to_string()),
        app_namespace: None,
        project: None,
        errors_only: true,
    };
    let r = h.pod_logs_request(&args).unwrap();
    assert_eq!(
        r.url,
        "https://argocd.example.com/api/v1/applications/guestbook/logs?tailLines=100&kind=Deployment&resourceName=web&follow=false"
    );
    assert_eq!(ArgocdMcpHandler::tail_lines(Some(5)), Some(5));
    assert_eq!(ArgocdMcpHandler::tail_lines(None), Some(100));
}

#[test]
fn refresh_reads_the_application_then_refreshes_it_hard() {
    let h = ready(true);
    let args = RefreshApplicationArgs {
        application_name: "guestbook".to_string(),
        refresh_type: None,
        app_namespace: None,
        project: None,
    };
    let (before, after) = h.refresh_application_requests(&args).unwrap();
    assert_eq!(before.url, "https://argocd.example.com/api/v1/applications/guestbook");
    assert_eq!(after.url, "https://argocd.example.com/api/v1/applications/guestbook?refresh=hard");
    let args = RefreshApplicationArgs { refresh_type: Some("normal".to_string()), ..args };
    let (_, after) = h.refresh_application_requests(&args).unwrap();
    assert_eq!(after.url, "https://argocd.example.com/api/v1/applications/guestbook?refresh=normal");
}

#[test]
fn history_reads_the_application() {
    let h = ready(false);
    let args = GetApplicationHistoryArgs {
        application_name: "guestbook".to_string(),
        app_namespace: Some("argocd".to_string()),
        project: None,
    };
    let r = h.get_application_history_request(&args).unwrap();
    assert_eq!(r.url, "https://argocd.example.com/api/v1/applications/guestbook?appNamespace=argocd");
}

#[test]
fn failures_name_the_tool() {
    assert_eq!(tool_failure(Tool::PodLogs, "timeout"), "Failed to get pod logs: timeout");
    assert_eq!(
        tool_failure(Tool::ServerSideDiff, "ArgoCD API error (404 Not Found): x"),
        "Failed to perform server-side diff: ArgoCD API error (404 Not Found): x"
    );
    assert_eq!(tool_failure(Tool::ListApplicationNames, "e"), "Failed to list application names: e");
}

#[test]
fn retry_has_a_backoff_only_when_one_is_set() {
    let r = retry_strategy_of(&RetryArgs {
        limit: Some(3),
        backoff_duration: None,
        backoff_max_duration: None,
        backoff_factor: None,
    });
    assert_eq!(r.limit, Some(3));
    assert!(r.backoff.is_none());
    let r = retry_strategy_of(&RetryArgs {
        limit: None,
        backoff_duration: None,
        backoff_max_duration: Some("3m".to_string()),
        backoff_factor: None,
    });
    let b = r.backoff.unwrap();
    assert_eq!(b.max_duration.as_deref(), Some("3m"));
    assert!(b.duration.is_none() && b.factor.is_none());
}

#[test]
fn sync_arguments_become_resources() {
    let args = Some(vec![SyncResourceArgs {
        group: Some("apps".to_string()),
        kind: "Deployment".to_string(),
        name: "web".to_string(),
        namespace: None,
    }]);
    let r = sync_resources_of(&args).unwrap();
    assert_eq!(r.len(), 1);
    assert_eq!(r[0].group.as_deref(), Some("apps"));
    assert_eq!(r[0].kind, "Deployment");
    assert_eq!(r[0].name, "web");
    assert!(sync_resources_of(&None).is_none());
}

fn returned_app() -> Application {
    Application {
        metadata: Some(ObjectMeta {
            name: "guestbook".to_string(),
            namespace: None,
            labels: None,
            annotations: None,
            creation_timestamp: None,
        }),
        spec: None,
        status: None,
    }
}

#[test]
fn sync_summary_takes_the_options_asked_for() {
    let summary = sync_summary_of(returned_app(), sync_args());
    assert_eq!(summary.name, "guestbook");
    assert!(!summary.dry_run && !summary.prune_enabled && !summary.force_enabled);
    assert!(summary.sync_options.is_empty());
    assert_eq!(summary.resources_count, None);
    let mut args = sync_args();
    args.dry_run = Some(true);
    args.force = Some(true);
    args.sync_options = Some(vec!["CreateNamespace=true".to_string()]);
    args.resources = Some(vec![
        SyncResourceArgs { group: None, kind: "Deployment".to_string(), name: "web".to_string(), namespace: None },
        SyncResourceArgs { group: None, kind: "Service".to_string(), name: "web".to_string(), namespace: None },
    ]);
    let summary = sync_summary_of(returned_app(), args);
    assert!(summary.dry_run && !summary.prune_enabled && summary.force_enabled);
    assert_eq!(summary.sync_options, vec!["CreateNamespace=true".to_string()]);
    assert_eq!(summary.resources_count, Some(2));
}

#[test]
fn rollback_summary_takes_the_flags_asked_for() {
    let summary = rollback_summary_of(returned_app(), &rollback_args());
    assert_eq!(summary.name, "guestbook");
    assert_eq!(summary.rolled_back_to_id, 1);
    assert!(!summary.dry_run && !summary.prune_enabled);
    let mut args = rollback_args();
    args.prune = Some(true);
    let summary = rollback_summary_of(returned_app(), &args);
    assert!(summary.prune_enabled);
}

#[test]
fn a_cloned_initialized_handler_keeps_its_switch() {
    let h = ready(true);
    let c = h.clone();
    assert!(c.is_read_only());
    assert!(c.is_initialized());
    assert_eq!(c.check(Tool::SyncApplication).err(), h.check(Tool::SyncApplication).err());
    assert!(c.check(Tool::GetApplication).is_ok());
}
