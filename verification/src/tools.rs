//! The MCP tool handler: its state (the API client once initialized, and
//! the read-only switch), the arguments of each tool, the checks made
//! before a tool runs and the request each tool sends.

use vstd::prelude::*;
use crate::argocd_client::{
    flag, application_params, application_path, applications_path, event_params, int_param, listing_params,
    manifest_params, pod_log_params, resource_params, revision_metadata_path, rollback_body, scope_params,
    sync_body, tree_params, widen, without_trailing_slashes, ApiRequest, ArgocdClient, HttpMethod, RequestBody,
};
use crate::json::json_view;
use crate::models::Application;
use crate::operations::{
    refresh_mode, refresh_parameter, ApplicationRollbackSummary, ApplicationSyncSummary, Backoff, RetryStrategy,
    SyncResource,
};
use crate::url::multi_param;

verus! {

/// Arguments of `list_applications`.
pub struct ListApplicationsArgs {
    pub name: Option<String>,
    pub projects: Option<Vec<String>>,
    pub selector: Option<String>,
    pub repo: Option<String>,
    pub app_namespace: Option<String>,
}

/// Arguments of `list_application_names`.
pub struct ListApplicationNamesArgs {
    pub projects: Option<Vec<String>>,
    pub selector: Option<String>,
    pub repo: Option<String>,
    pub app_namespace: Option<String>,
}

/// Arguments of `server_side_diff`.
pub struct ServerSideDiffArgs {
    pub app_name: String,
    pub app_namespace: Option<String>,
    pub project: Option<String>,
    pub target_manifests: Option<Vec<String>>,
}

/// Arguments of `resource_tree`.
pub struct ResourceTreeArgs {
    pub application_name: String,
    pub namespace: Option<String>,
    pub name: Option<String>,
    pub version: Option<String>,
    pub group: Option<String>,
    pub kind: Option<String>,
    pub app_namespace: Option<String>,
    pub project: Option<String>,
}

/// Arguments of `get_application`.
pub struct GetApplicationArgs {
    pub name: String,
    pub app_namespace: Option<String>,
    pub project: Option<String>,
    pub refresh: Option<String>,
    pub resource_version: Option<String>,
}

/// Arguments of `list_resource_events`.
pub struct ListResourceEventsArgs {
    pub application_name: String,
    pub resource_namespace: Option<String>,
    pub resource_name: Option<String>,
    pub resource_uid: Option<String>,
    pub app_namespace: Option<String>,
    pub project: Option<String>,
}

/// Arguments of `pod_logs`.
pub struct PodLogsArgs {
    pub application_name: String,
    pub namespace: Option<String>,
    pub pod_name: Option<String>,
    pub container: Option<String>,
    pub since_seconds: Option<i64>,
    pub tail_lines: Option<i64>,
    pub previous: Option<bool>,
    pub filter: Option<String>,
    pub kind: Option<String>,
    pub group: Option<String>,
    pub resource_name: Option<String>,
    pub app_namespace: Option<String>,
    pub project: Option<String>,
    pub errors_only: bool,
}

/// Arguments of `get_manifests`.
pub struct GetManifestsArgs {
    pub application_name: String,
    pub revision: Option<String>,
    pub app_namespace: Option<String>,
    pub project: Option<String>,
    pub source_positions: Option<Vec<i64>>,
    pub revisions: Option<Vec<String>>,
}

/// Arguments of `revision_metadata`.
pub struct RevisionMetadataArgs {
    pub application_name: String,
    pub revision: String,
    pub app_namespace: Option<String>,
    pub project: Option<String>,
    pub source_index: Option<i32>,
    pub version_id: Option<i32>,
}

/// Arguments of `get_application_sync_windows`.
pub struct GetApplicationSyncWindowsArgs {
    pub application_name: String,
    pub app_namespace: Option<String>,
    pub project: Option<String>,
}

/// Arguments of `rollback_application`.
pub struct RollbackApplicationArgs {
    pub application_name: String,
    pub id: i64,
    pub dry_run: Option<bool>,
    pub prune: Option<bool>,
    pub app_namespace: Option<String>,
    pub project: Option<String>,
}

/// A resource selected for a partial sync, as a tool argument.
pub struct SyncResourceArgs {
    pub group: Option<String>,
    pub kind: String,
    pub name: String,
    pub namespace: Option<String>,
}

/// The retry settings of a sync, as a tool argument.
pub struct RetryArgs {
    pub limit: Option<i64>,
    pub backoff_duration: Option<String>,
    pub backoff_max_duration: Option<String>,
    pub backoff_factor: Option<i64>,
}

/// Arguments of `get_resource`.
pub struct GetResourceArgs {
    pub application_name: String,
    pub namespace: Option<String>,
    pub resource_name: String,
    pub version: String,
    pub group: Option<String>,
    pub kind: String,
    pub app_namespace: Option<String>,
    pub project: Option<String>,
}

/// Arguments of `patch_resource`.
pub struct PatchResourceArgs {
    pub application_name: String,
    pub namespace: Option<String>,
    pub resource_name: String,
    pub version: String,
    pub group: Option<String>,
    pub kind: String,
    pub patch: String,
    pub patch_type: Option<String>,
    pub app_namespace: Option<String>,
    pub project: Option<String>,
}

/// Arguments of `get_application_history`.
pub struct GetApplicationHistoryArgs {
    pub application_name: String,
    pub app_namespace: Option<String>,
    pub project: Option<String>,
}

/// Arguments of `refresh_application`.
pub struct RefreshApplicationArgs {
    pub application_name: String,
    pub refresh_type: Option<String>,
    pub app_namespace: Option<String>,
    pub project: Option<String>,
}

/// Arguments of `sync_application`.
pub struct SyncApplicationArgs {
    pub application_name: String,
    pub revision: Option<String>,
    pub dry_run: Option<bool>,
    pub prune: Option<bool>,
    pub force: Option<bool>,
    pub resources: Option<Vec<SyncResourceArgs>>,
    pub sync_options: Option<Vec<String>>,
    pub retry: Option<RetryArgs>,
    pub app_namespace: Option<String>,
    pub project: Option<String>,
}

/// The sync options a sync was asked with, none when absent.
pub open spec fn requested_sync_options(o: Option<Vec<String>>) -> Seq<String> {
    match o {
        Some(v) => v@,
        None => Seq::empty(),
    }
}

/// The number of resources a partial sync selected; none for a full sync.
pub open spec fn selected_count(resources: Option<Vec<SyncResourceArgs>>) -> Option<usize> {
    match resources {
        Some(v) => Some(v.len()),
        None => None,
    }
}

/// The summary of a sync: the application it returned, with the options
/// asked for (absent flags false, absent sync options none) and the number
/// of resources of a partial sync.
pub fn sync_summary_of(app: Application, args: SyncApplicationArgs) -> (r: ApplicationSyncSummary)
    ensures
        r.summarizes(
            app,
            flag(args.dry_run),
            flag(args.prune),
            flag(args.force),
            requested_sync_options(args.sync_options),
            selected_count(args.resources),
        ),
{
    let resources_count = match &args.resources {
        Some(v) => Some(v.len()),
        None => None,
    };
    let sync_options = match args.sync_options {
        Some(v) => v,
        None => Vec::new(),
    };
    ApplicationSyncSummary::from_application(
        app,
        match args.dry_run { Some(b) => b, None => false },
        match args.prune { Some(b) => b, None => false },
        match args.force { Some(b) => b, None => false },
        sync_options,
        resources_count,
    )
}

/// The summary of a rollback: the application it returned, the history id
/// rolled back to and the flags asked for (absent flags false).
pub fn rollback_summary_of(app: Application, args: &RollbackApplicationArgs) -> (r: ApplicationRollbackSummary)
    ensures
        r.summarizes(app, args.id, flag(args.dry_run), flag(args.prune)),
{
    ApplicationRollbackSummary::from_application(
        app,
        args.id,
        match args.dry_run { Some(b) => b, None => false },
        match args.prune { Some(b) => b, None => false },
    )
}

/// The tools of the server.
#[derive(Debug, Clone, Copy, PartialEq, Eq, Structural)]
pub enum Tool {
    ListApplications,
    ListApplicationNames,
    ServerSideDiff,
    GetApplication,
    ResourceTree,
    ListResourceEvents,
    PodLogs,
    GetManifests,
    RevisionMetadata,
    GetApplicationSyncWindows,
    RollbackApplication,
    SyncApplication,
    GetResource,
    PatchResource,
    GetApplicationHistory,
    RefreshApplication,
}

/// What a tool was doing, as its failures report it.
pub open spec fn tool_action(tool: Tool) -> Seq<char> {
    match tool {
        Tool::ListApplications => "list applications"@,
        Tool::ListApplicationNames => "list application names"@,
        Tool::ServerSideDiff => "perform server-side diff"@,
        Tool::GetApplication => "get application"@,
        Tool::ResourceTree => "get resource tree"@,
        Tool::ListResourceEvents => "list resource events"@,
        Tool::PodLogs => "get pod logs"@,
        Tool::GetManifests => "get manifests"@,
        Tool::RevisionMetadata => "get revision metadata"@,
        Tool::GetApplicationSyncWindows => "get application sync windows"@,
        Tool::RollbackApplication => "rollback application"@,
        Tool::SyncApplication => "sync application"@,
        Tool::GetResource => "get resource"@,
        Tool::PatchResource => "patch resource"@,
        Tool::GetApplicationHistory => "get application history"@,
        Tool::RefreshApplication => "refresh application"@,
    }
}

/// The error of a tool whose call to the API failed.
pub open spec fn tool_failure_text(tool: Tool, error: Seq<char>) -> Seq<char> {
    "Failed to "@ + tool_action(tool) + ": "@ + error
}

/// The error of a tool called before the client was initialized.
pub open spec fn not_initialized_text() -> Seq<char> {
    "ArgoCD client not initialized. Please ensure ARGOCD_BASE_URL and ARGOCD_ACCESS_TOKEN environment variables are set."@
}

/// Whether a tool modifies state (and is refused in read-only mode).
pub open spec fn is_write(tool: Tool) -> bool {
    tool == Tool::RollbackApplication || tool == Tool::SyncApplication || tool == Tool::PatchResource
}

/// The refusal of a write tool in read-only mode.
pub open spec fn read_only_refusal(tool: Tool) -> Seq<char> {
    match tool {
        Tool::RollbackApplication => "Cannot rollback application in read-only mode. This operation modifies application state."@,
        Tool::SyncApplication => "Cannot sync application in read-only mode. This operation modifies application state."@,
        _ => "Cannot patch resource in read-only mode. This operation modifies resource state."@,
    }
}

/// The number of log lines asked for when none is given.
pub const DEFAULT_TAIL_LINES: i64 = 100;

/// The number of log lines asked for: the one given, else 100.
pub open spec fn effective_tail(tail_lines: Option<i64>) -> Option<i64> {
    match tail_lines {
        Some(t) => Some(t),
        None => Some(DEFAULT_TAIL_LINES),
    }
}

/// The resource a sync argument selects.
pub open spec fn selected_resource(a: SyncResourceArgs) -> SyncResource {
    SyncResource { group: a.group, kind: a.kind, name: a.name, namespace: a.namespace }
}

/// The resources a sync selects, when it selects some.
pub open spec fn selected_resources(resources: Option<Vec<SyncResourceArgs>>) -> Option<Seq<SyncResource>> {
    match resources {
        Some(v) => Some(v@.map_values(|a: SyncResourceArgs| selected_resource(a))),
        None => None,
    }
}

/// The retry strategy of retry settings: a backoff only when one of its
/// settings is given.
pub open spec fn retry_strategy(a: RetryArgs) -> RetryStrategy {
    RetryStrategy {
        limit: a.limit,
        backoff: if a.backoff_duration is Some || a.backoff_max_duration is Some || a.backoff_factor is Some {
            Some(Backoff { duration: a.backoff_duration, max_duration: a.backoff_max_duration, factor: a.backoff_factor })
        } else {
            None
        },
    }
}

/// The views of optional resources.
pub open spec fn opt_seq(v: Option<Vec<SyncResource>>) -> Option<Seq<SyncResource>> {
    match v {
        Some(x) => Some(x@),
        None => None,
    }
}

/// The failure of a tool: `Failed to <action>: <error>`.
pub fn tool_failure(tool: Tool, error: &str) -> (r: String)
    ensures
        r@ == tool_failure_text(tool, error@),
{
    let mut out = "Failed to ".to_owned();
    let action = match tool {
        Tool::ListApplications => "list applications",
        Tool::ListApplicationNames => "list application names",
        Tool::ServerSideDiff => "perform server-side diff",
        Tool::GetApplication => "get application",
        Tool::ResourceTree => "get resource tree",
        Tool::ListResourceEvents => "list resource events",
        Tool::PodLogs => "get pod logs",
        Tool::GetManifests => "get manifests",
        Tool::RevisionMetadata => "get revision metadata",
        Tool::GetApplicationSyncWindows => "get application sync windows",
        Tool::RollbackApplication => "rollback application",
        Tool::SyncApplication => "sync application",
        Tool::GetResource => "get resource",
        Tool::PatchResource => "patch resource",
        Tool::GetApplicationHistory => "get application history",
        Tool::RefreshApplication => "refresh application",
    };
    out.append(action);
    out.append(": ");
    out.append(error);
    out
}

/// The resource selected by a sync argument.
pub fn sync_resource_of(a: &SyncResourceArgs) -> (r: SyncResource)
    ensures
        r == selected_resource(*a),
{
    SyncResource { group: a.group.clone(), kind: a.kind.clone(), name: a.name.clone(), namespace: a.namespace.clone() }
}

/// The resources selected by the arguments of a sync.
pub fn sync_resources_of(resources: &Option<Vec<SyncResourceArgs>>) -> (r: Option<Vec<SyncResource>>)
    ensures
        opt_seq(r) == selected_resources(*resources),
{
    match resources {
        Some(v) => {
            let mut out: Vec<SyncResource> = Vec::new();
            let n = v.len();
            for i in 0..n
                invariant
                    n == v@.len(),
                    out@ == v@.take(i as int).map_values(|a: SyncResourceArgs| selected_resource(a)),
            {
                out.push(sync_resource_of(&v[i]));
                assert(out@ =~= v@.take(i + 1).map_values(|a: SyncResourceArgs| selected_resource(a)));
            }
            assert(v@.take(n as int) =~= v@);
            Some(out)
        },
        None => None,
    }
}

/// The retry strategy of the retry settings of a sync.
pub fn retry_strategy_of(a: &RetryArgs) -> (r: RetryStrategy)
    ensures
        r == retry_strategy(*a),
{
    let backoff = if a.backoff_duration.is_some() || a.backoff_max_duration.is_some() || a.backoff_factor.is_some() {
        Some(Backoff {
            duration: a.backoff_duration.clone(),
            max_duration: a.backoff_max_duration.clone(),
            factor: a.backoff_factor,
        })
    } else {
        None
    };
    RetryStrategy { limit: a.limit, backoff }
}

/// The handler of the MCP tools: the API client, once initialized, and
/// whether write tools are refused.
pub struct ArgocdMcpHandler {
    client: Option<ArgocdClient>,
    read_only: bool,
}

impl ArgocdMcpHandler {
    /// The API client, once initialized.
    pub closed spec fn client_spec(&self) -> Option<ArgocdClient> {
        self.client
    }

    /// Whether write tools are refused.
    pub closed spec fn read_only_spec(&self) -> bool {
        self.read_only
    }

    /// What a tool is answered before it calls the API: an error when the
    /// client is not initialized, or when the tool writes in read-only
    /// mode; otherwise the client to call.
    pub open spec fn gate(&self, tool: Tool) -> Result<ArgocdClient, Seq<char>> {
        match self.client_spec() {
            None => Err(not_initialized_text()),
            Some(c) => if is_write(tool) && self.read_only_spec() {
                Err(read_only_refusal(tool))
            } else {
                Ok(c)
            },
        }
    }

    /// The read-only gate: a handler without client answers every tool with
    /// the not-initialized error; an initialized handler in read-only mode
    /// refuses exactly the write tools, each with its own refusal, and
    /// outside read-only mode lets every tool through to the same client.
    pub proof fn lemma_gate(handler: ArgocdMcpHandler, tool: Tool)
        ensures
            handler.client_spec() is None ==> handler.gate(tool) == Err::<ArgocdClient, Seq<char>>(not_initialized_text()),
            handler.client_spec() matches Some(c) ==> {
                &&& handler.read_only_spec() && is_write(tool) ==> handler.gate(tool) == Err::<ArgocdClient, Seq<char>>(read_only_refusal(tool))
                &&& !(handler.read_only_spec() && is_write(tool)) ==> handler.gate(tool) == Ok::<ArgocdClient, Seq<char>>(c)
            },
            handler.gate(tool) is Err && handler.client_spec() is Some ==> handler.read_only_spec() && is_write(tool),
    {
    }

    /// A handler without client that allows write tools.
    pub fn new() -> (r: Self)
        ensures
            r.client_spec() is None,
            !r.read_only_spec(),
    {
        Self::with_read_only(false)
    }

    /// A handler without client, read-only or not.
    pub fn with_read_only(read_only: bool) -> (r: Self)
        ensures
            r.client_spec() is None,
            r.read_only_spec() == read_only,
    {
        ArgocdMcpHandler { client: None, read_only }
    }

    /// A handler configured by the setting of `ARGOCD_READ_ONLY`: read-only
    /// when the setting is `true`; `false`, another text or no setting
    /// allow write tools.
    pub fn from_env(setting: Option<String>) -> (r: Self)
        ensures
            r.client_spec() is None,
            r.read_only_spec() == (setting matches Some(s) && s@ == "true"@),
    {
        let read_only = match setting {
            Some(s) => s == "true".to_owned(),
            None => false,
        };
        Self::with_read_only(read_only)
    }

    /// Sets up the client with the given base URL and token; on an error
    /// (an empty URL or token) the handler is unchanged.
    pub fn initialize(&mut self, base_url: String, access_token: String) -> (r: Result<(), String>)
        ensures
            base_url@.len() == 0 ==> (r matches Err(e) && e@ == "base_url cannot be empty"@),
            base_url@.len() > 0 && access_token@.len() == 0 ==> (r matches Err(e) && e@ == "access_token cannot be empty"@),
            r is Err ==> *final(self) == *old(self),
            base_url@.len() > 0 && access_token@.len() > 0 ==> {
                &&& r is Ok
                &&& final(self).client_spec() matches Some(c) && c.base() == without_trailing_slashes(base_url@)
                    && c.token() == access_token@
            },
            final(self).read_only_spec() == old(self).read_only_spec(),
    {
        match ArgocdClient::new(base_url, access_token) {
            Ok(c) => {
                self.client = Some(c);
                Ok(())
            },
            Err(e) => Err(e),
        }
    }

    /// Whether write tools are refused.
    pub fn is_read_only(&self) -> (r: bool)
        ensures
            r == self.read_only_spec(),
    {
        self.read_only
    }

    /// Whether the client is initialized.
    pub fn is_initialized(&self) -> (r: bool)
        ensures
            r == self.client_spec() is Some,
    {
        self.client.is_some()
    }

    /// The check made before a tool calls the API.
    pub fn check(&self, tool: Tool) -> (r: Result<&ArgocdClient, String>)
        ensures
            match r {
                Ok(c) => self.gate(tool) == Ok::<ArgocdClient, Seq<char>>(*c),
                Err(e) => self.gate(tool) == Err::<ArgocdClient, Seq<char>>(e@),
            },
    {
        match &self.client {
            None => Err(
                "ArgoCD client not initialized. Please ensure ARGOCD_BASE_URL and ARGOCD_ACCESS_TOKEN environment variables are set.".to_owned(),
            ),
            Some(c) => {
                if self.read_only {
                    match tool {
                        Tool::RollbackApplication => {
                            return Err("Cannot rollback application in read-only mode. This operation modifies application state.".to_owned());
                        },
                        Tool::SyncApplication => {
                            return Err("Cannot sync application in read-only mode. This operation modifies application state.".to_owned());
                        },
                        Tool::PatchResource => {
                            return Err("Cannot patch resource in read-only mode. This operation modifies resource state.".to_owned());
                        },
                        _ => {},
                    }
                }
                Ok(c)
            },
        }
    }

    /// The request of `list_applications`.
    pub fn list_applications_request(&self, args: &ListApplicationsArgs) -> (r: Result<ApiRequest, String>)
        ensures
            match self.gate(Tool::ListApplications) {
                Err(e) => r matches Err(x) && x@ == e,
                Ok(c) => r matches Ok(q) && c.is_get(q, applications_path(),
                    listing_params(args.name, args.projects, args.selector, args.repo, args.app_namespace)),
            },
    {
        let c = match self.check(Tool::ListApplications) {
            Ok(c) => c,
            Err(e) => {
                return Err(e);
            },
        };
        Ok(c.list_applications_request(&args.name, &args.projects, &args.selector, &args.repo, &args.app_namespace))
    }

    /// The request of `list_application_names`.
    pub fn list_application_names_request(&self, args: &ListApplicationNamesArgs) -> (r: Result<ApiRequest, String>)
        ensures
            match self.gate(Tool::ListApplicationNames) {
                Err(e) => r matches Err(x) && x@ == e,
                Ok(c) => r matches Ok(q) && c.is_get(q, applications_path(),
                    listing_params(None, args.projects, args.selector, args.repo, args.app_namespace)),
            },
    {
        let c = match self.check(Tool::ListApplicationNames) {
            Ok(c) => c,
            Err(e) => {
                return Err(e);
            },
        };
        Ok(c.list_application_names_request(&args.projects, &args.selector, &args.repo, &args.app_namespace))
    }

    /// The request of `server_side_diff`.
    pub fn server_side_diff_request(&self, args: &ServerSideDiffArgs) -> (r: Result<ApiRequest, String>)
        ensures
            match self.gate(Tool::ServerSideDiff) {
                Err(e) => r matches Err(x) && x@ == e,
                Ok(c) => r matches Ok(q) && c.is_get(q, application_path(args.app_name@, "/server-side-diff"@),
                    scope_params(args.app_namespace, args.project) + multi_param("targetManifests"@, args.target_manifests)),
            },
    {
        let c = match self.check(Tool::ServerSideDiff) {
            Ok(c) => c,
            Err(e) => {
                return Err(e);
            },
        };
        Ok(c.server_side_diff_request(args.app_name.as_str(), &args.app_namespace, &args.project, &args.target_manifests))
    }

    /// The request of `get_application`.
    pub fn get_application_request(&self, args: &GetApplicationArgs) -> (r: Result<ApiRequest, String>)
        ensures
            match self.gate(Tool::GetApplication) {
                Err(e) => r matches Err(x) && x@ == e,
                Ok(c) => r matches Ok(q) && c.is_get(q, application_path(args.name@, ""@),
                    application_params(args.app_namespace, args.project, args.refresh, args.resource_version)),
            },
    {
        let c = match self.check(Tool::GetApplication) {
            Ok(c) => c,
            Err(e) => {
                return Err(e);
            },
        };
        Ok(c.get_application_request(args.name.as_str(), &args.app_namespace, &args.project, &args.refresh,
            &args.resource_version))
    }

    /// The request of `resource_tree`.
    pub fn resource_tree_request(&self, args: &ResourceTreeArgs) -> (r: Result<ApiRequest, String>)
        ensures
            match self.gate(Tool::ResourceTree) {
                Err(e) => r matches Err(x) && x@ == e,
                Ok(c) => r matches Ok(q) && c.is_get(q, application_path(args.application_name@, "/resource-tree"@),
                    tree_params(args.namespace, args.name, args.version, args.group, args.kind, args.app_namespace,
                        args.project)),
            },
    {
        let c = match self.check(Tool::ResourceTree) {
            Ok(c) => c,
            Err(e) => {
                return Err(e);
            },
        };
        Ok(c.resource_tree_request(args.application_name.as_str(), &args.namespace, &args.name, &args.version,
            &args.group, &args.kind, &args.app_namespace, &args.project))
    }

    /// The request of `list_resource_events`.
    pub fn list_resource_events_request(&self, args: &ListResourceEventsArgs) -> (r: Result<ApiRequest, String>)
        ensures
            match self.gate(Tool::ListResourceEvents) {
                Err(e) => r matches Err(x) && x@ == e,
                Ok(c) => r matches Ok(q) && c.is_get(q, application_path(args.application_name@, "/events"@),
                    event_params(args.resource_namespace, args.resource_name, args.resource_uid, args.app_namespace,
                        args.project)),
            },
    {
        let c = match self.check(Tool::ListResourceEvents) {
            Ok(c) => c,
            Err(e) => {
                return Err(e);
            },
        };
        Ok(c.list_resource_events_request(args.application_name.as_str(), &args.resource_namespace,
            &args.resource_name, &args.resource_uid, &args.app_namespace, &args.project))
    }

    /// The request of `pod_logs`; the number of lines defaults to 100.
    pub fn pod_logs_request(&self, args: &PodLogsArgs) -> (r: Result<ApiRequest, String>)
        ensures
            match self.gate(Tool::PodLogs) {
                Err(e) => r matches Err(x) && x@ == e,
                Ok(c) => r matches Ok(q) && c.is_get(q, application_path(args.application_name@, "/logs"@),
                    pod_log_params(args.namespace, args.pod_name, args.container, args.since_seconds,
                        effective_tail(args.tail_lines), args.previous, args.filter, args.kind, args.group,
                        args.resource_name, args.app_namespace, args.project)),
            },
    {
        let c = match self.check(Tool::PodLogs) {
            Ok(c) => c,
            Err(e) => {
                return Err(e);
            },
        };
        let tail = Self::tail_lines(args.tail_lines);
        Ok(c.pod_logs_request(args.application_name.as_str(), &args.namespace, &args.pod_name, &args.container,
            args.since_seconds, tail, args.previous, &args.filter, &args.kind, &args.group, &args.resource_name,
            &args.app_namespace, &args.project))
    }

    /// The number of log lines asked for: the one given, else 100.
    pub fn tail_lines(tail_lines: Option<i64>) -> (r: Option<i64>)
        ensures
            r == effective_tail(tail_lines),
    {
        match tail_lines {
            Some(t) => Some(t),
            None => Some(DEFAULT_TAIL_LINES),
        }
    }

    /// The request of `get_manifests`.
    pub fn get_manifests_request(&self, args: &GetManifestsArgs) -> (r: Result<ApiRequest, String>)
        ensures
            match self.gate(Tool::GetManifests) {
                Err(e) => r matches Err(x) && x@ == e,
                Ok(c) => r matches Ok(q) && c.is_get(q, application_path(args.application_name@, "/manifests"@),
                    manifest_params(args.revision, args.app_namespace, args.project, args.source_positions,
                        args.revisions)),
            },
    {
        let c = match self.check(Tool::GetManifests) {
            Ok(c) => c,
            Err(e) => {
                return Err(e);
            },
        };
        Ok(c.get_manifests_request(args.application_name.as_str(), &args.revision, &args.app_namespace,
            &args.project, &args.source_positions, &args.revisions))
    }

    /// The request of `revision_metadata`.
    pub fn revision_metadata_request(&self, args: &RevisionMetadataArgs) -> (r: Result<ApiRequest, String>)
        ensures
            match self.gate(Tool::RevisionMetadata) {
                Err(e) => r matches Err(x) && x@ == e,
                Ok(c) => r matches Ok(q) && c.is_get(q, revision_metadata_path(args.application_name@, args.revision@),
                    scope_params(args.app_namespace, args.project) + int_param("sourceIndex"@, widen(args.source_index))
                        + int_param("versionId"@, widen(args.version_id))),
            },
    {
        let c = match self.check(Tool::RevisionMetadata) {
            Ok(c) => c,
            Err(e) => {
                return Err(e);
            },
        };
        Ok(c.revision_metadata_request(args.application_name.as_str(), args.revision.as_str(), &args.app_namespace,
            &args.project, args.source_index, args.version_id))
    }

    /// The request of `get_application_sync_windows`.
    pub fn sync_windows_request(&self, args: &GetApplicationSyncWindowsArgs) -> (r: Result<ApiRequest, String>)
        ensures
            match self.gate(Tool::GetApplicationSyncWindows) {
                Err(e) => r matches Err(x) && x@ == e,
                Ok(c) => r matches Ok(q) && c.is_get(q, application_path(args.application_name@, "/sync-windows"@),
                    scope_params(args.app_namespace, args.project)),
            },
    {
        let c = match self.check(Tool::GetApplicationSyncWindows) {
            Ok(c) => c,
            Err(e) => {
                return Err(e);
            },
        };
        Ok(c.sync_windows_request(args.application_name.as_str(), &args.app_namespace, &args.project))
    }

    /// The request of `rollback_application`; refused in read-only mode.
    pub fn rollback_application_request(&self, args: &RollbackApplicationArgs) -> (r: Result<ApiRequest, String>)
        ensures
            match self.gate(Tool::RollbackApplication) {
                Err(e) => r matches Err(x) && x@ == e,
                Ok(c) => r matches Ok(q) && c.is_request(q, HttpMethod::Post,
                    application_path(args.application_name@, "/rollback"@), scope_params(args.app_namespace, args.project))
                    && (q.body matches RequestBody::Json(b) && json_view(b) == rollback_body(args.application_name@,
                        args.id, args.dry_run, args.prune, args.app_namespace, args.project)),
            },
    {
        let c = match self.check(Tool::RollbackApplication) {
            Ok(c) => c,
            Err(e) => {
                return Err(e);
            },
        };
        Ok(c.rollback_request(&args.application_name, args.id, args.dry_run, args.prune, &args.app_namespace,
            &args.project))
    }

    /// The request of `sync_application`; refused in read-only mode.
    pub fn sync_application_request(&self, args: &SyncApplicationArgs) -> (r: Result<ApiRequest, String>)
        ensures
            match self.gate(Tool::SyncApplication) {
                Err(e) => r matches Err(x) && x@ == e,
                Ok(c) => r matches Ok(q) && c.is_request(q, HttpMethod::Post,
                    application_path(args.application_name@, "/sync"@), scope_params(args.app_namespace, args.project))
                    && (q.body matches RequestBody::Json(b) && exists|resources: Option<Vec<SyncResource>>| {
                        &&& #[trigger] opt_seq(resources) == selected_resources(args.resources)
                        &&& json_view(b) == sync_body(args.application_name@, args.revision, args.dry_run, args.prune,
                            args.force, resources, args.sync_options,
                            match args.retry { Some(a) => Some(retry_strategy(a)), None => None },
                            args.app_namespace, args.project)
                    }),
            },
    {
        let c = match self.check(Tool::SyncApplication) {
            Ok(c) => c,
            Err(e) => {
                return Err(e);
            },
        };
        let resources = sync_resources_of(&args.resources);
        let retry = match &args.retry {
            Some(a) => Some(retry_strategy_of(a)),
            None => None,
        };
        let q = c.sync_request(&args.application_name, &args.revision, args.dry_run, args.prune, args.force,
            &resources, &args.sync_options, &retry, &args.app_namespace, &args.project);
        Ok(q)
    }

    /// The resources and retry strategy a sync tool sends, from its arguments.
    pub fn sync_settings(args: &SyncApplicationArgs) -> (r: (Option<Vec<SyncResource>>, Option<RetryStrategy>))
        ensures
            opt_seq(r.0) == selected_resources(args.resources),
            r.1 == match args.retry {
                Some(a) => Some(retry_strategy(a)),
                None => None,
            },
    {
        let resources = sync_resources_of(&args.resources);
        let retry = match &args.retry {
            Some(a) => Some(retry_strategy_of(a)),
            None => None,
        };
        (resources, retry)
    }

    /// The request of `get_resource`.
    pub fn get_resource_request(&self, args: &GetResourceArgs) -> (r: Result<ApiRequest, String>)
        ensures
            match self.gate(Tool::GetResource) {
                Err(e) => r matches Err(x) && x@ == e,
                Ok(c) => r matches Ok(q) && c.is_get(q, application_path(args.application_name@, "/resource"@),
                    resource_params(args.namespace, args.resource_name@, args.version@, args.group, args.kind@, None,
                        args.app_namespace, args.project)),
            },
    {
        let c = match self.check(Tool::GetResource) {
            Ok(c) => c,
            Err(e) => {
                return Err(e);
            },
        };
        Ok(c.get_resource_request(args.application_name.as_str(), &args.namespace, args.resource_name.as_str(),
            args.version.as_str(), &args.group, args.kind.as_str(), &args.app_namespace, &args.project))
    }

    /// The request of `patch_resource`; refused in read-only mode.
    pub fn patch_resource_request(&self, args: &PatchResourceArgs) -> (r: Result<ApiRequest, String>)
        ensures
            match self.gate(Tool::PatchResource) {
                Err(e) => r matches Err(x) && x@ == e,
                Ok(c) => r matches Ok(q) && c.is_request(q, HttpMethod::Post,
                    application_path(args.application_name@, "/resource"@),
                    resource_params(args.namespace, args.resource_name@, args.version@, args.group, args.kind@,
                        args.patch_type, args.app_namespace, args.project))
                    && (q.body matches RequestBody::Text(t) && t@ == args.patch@),
            },
    {
        let c = match self.check(Tool::PatchResource) {
            Ok(c) => c,
            Err(e) => {
                return Err(e);
            },
        };
        Ok(c.patch_resource_request(args.application_name.as_str(), &args.namespace, args.resource_name.as_str(),
            args.version.as_str(), &args.group, args.kind.as_str(), &args.patch, &args.patch_type,
            &args.app_namespace, &args.project))
    }

    /// The request of `get_application_history`: the application itself.
    pub fn get_application_history_request(&self, args: &GetApplicationHistoryArgs) -> (r: Result<ApiRequest, String>)
        ensures
            match self.gate(Tool::GetApplicationHistory) {
                Err(e) => r matches Err(x) && x@ == e,
                Ok(c) => r matches Ok(q) && c.is_get(q, application_path(args.application_name@, ""@),
                    application_params(args.app_namespace, args.project, None, None)),
            },
    {
        let c = match self.check(Tool::GetApplicationHistory) {
            Ok(c) => c,
            Err(e) => {
                return Err(e);
            },
        };
        Ok(c.get_application_request(args.application_name.as_str(), &args.app_namespace, &args.project, &None,
            &None))
    }

    /// The two requests of `refresh_application`: the application as it
    /// is, then the application refreshed (`hard` unless another mode is given).
    pub fn refresh_application_requests(&self, args: &RefreshApplicationArgs) -> (r: Result<(ApiRequest, ApiRequest), String>)
        ensures
            match self.gate(Tool::RefreshApplication) {
                Err(e) => r matches Err(x) && x@ == e,
                Ok(c) => r matches Ok((before, after))
                    && c.is_get(before, application_path(args.application_name@, ""@),
                        application_params(args.app_namespace, args.project, None, None))
                    && exists|mode: String| mode@ == refresh_mode(args.refresh_type)
                        && c.is_get(after, application_path(args.application_name@, ""@),
                            application_params(args.app_namespace, args.project, Some(mode), None)),
            },
    {
        let c = match self.check(Tool::RefreshApplication) {
            Ok(c) => c,
            Err(e) => {
                return Err(e);
            },
        };
        let before = c.get_application_request(args.application_name.as_str(), &args.app_namespace, &args.project,
            &None, &None);
        let mode = refresh_parameter(&args.refresh_type);
        let after = c.get_application_request(args.application_name.as_str(), &args.app_namespace, &args.project,
            &Some(mode), &None);
        Ok((before, after))
    }
}


impl Default for ArgocdMcpHandler {
    /// A handler without client that allows write tools.
    fn default() -> (r: Self)
        ensures
            r.client_spec() is None,
            !r.read_only_spec(),
    {
        Self::new()
    }
}

impl Clone for ArgocdMcpHandler {
    /// A copy of the handler: the same client and the same read-only switch.
    fn clone(&self) -> (r: Self)
        ensures
            r == *self,
            r.client_spec() == self.client_spec(),
            r.read_only_spec() == self.read_only_spec(),
    {
        let client = match &self.client {
            Some(c) => Some(c.clone()),
            None => None,
        };
        ArgocdMcpHandler { client, read_only: self.read_only }
    }
}

} // verus!
