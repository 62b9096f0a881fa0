//! Operations on applications: sync windows, rollback, sync, refresh and
//! resource patches, with the summaries of their results.

use vstd::prelude::*;
use crate::application::{
    app_health_status, app_name, app_repo_url, app_sync_revision, app_sync_status, app_target_revision,
    application_name, status_fields, target_revision_of, Application,
};

verus! {

/// A window in which syncs are allowed or denied.
#[derive(Debug, Clone)]
pub struct ApplicationSyncWindow {
    pub kind: Option<String>,
    pub schedule: Option<String>,
    pub duration: Option<String>,
    pub applications: Option<Vec<String>>,
    pub namespaces: Option<Vec<String>>,
    pub clusters: Option<Vec<String>>,
    pub manual_sync_enabled: Option<bool>,
    pub start_time: Option<String>,
    pub end_time: Option<String>,
}

/// The sync windows of an application.
#[derive(Debug, Clone)]
pub struct ApplicationSyncWindowsResponse {
    pub windows: Vec<ApplicationSyncWindow>,
}

/// The sync windows with their count.
#[derive(Debug, Clone)]
pub struct ApplicationSyncWindowsSummary {
    pub total_windows: usize,
    pub windows: Vec<ApplicationSyncWindow>,
}

/// A request to roll an application back to a history entry.
#[derive(Debug, Clone)]
pub struct ApplicationRollbackRequest {
    pub name: String,
    pub id: i64,
    pub dry_run: Option<bool>,
    pub prune: Option<bool>,
    pub app_namespace: Option<String>,
    pub project: Option<String>,
}

/// The application after a rollback.
#[derive(Debug, Clone)]
pub struct ApplicationRollbackResponse {
    pub application: Application,
}

/// The compact result of a rollback.
#[derive(Debug, Clone)]
pub struct ApplicationRollbackSummary {
    pub name: String,
    pub rolled_back_to_id: i64,
    pub dry_run: bool,
    pub sync_status: Option<String>,
    pub sync_revision: Option<String>,
    pub health_status: Option<String>,
    pub target_revision: Option<String>,
    pub prune_enabled: bool,
}

/// How a sync applies resources and runs hooks.
#[derive(Debug, Clone)]
pub struct SyncStrategy {
    pub apply: Option<SyncStrategyApply>,
    pub hook: Option<SyncStrategyHook>,
}

/// Apply options of a sync.
#[derive(Debug, Clone)]
pub struct SyncStrategyApply {
    pub force: Option<bool>,
}

/// Hook options of a sync.
#[derive(Debug, Clone)]
pub struct SyncStrategyHook {
    pub force: Option<bool>,
}

/// A resource selected for a partial sync.
#[derive(Debug, Clone)]
pub struct SyncResource {
    pub group: Option<String>,
    pub kind: String,
    pub name: String,
    pub namespace: Option<String>,
}

/// A request to sync an application.
#[derive(Debug, Clone)]
pub struct ApplicationSyncRequest {
    pub name: String,
    pub revision: Option<String>,
    pub dry_run: Option<bool>,
    pub prune: Option<bool>,
    pub strategy: Option<SyncStrategy>,
    pub resources: Option<Vec<SyncResource>>,
    pub manifests: Option<Vec<String>>,
    pub sync_options: Option<Vec<String>>,
    pub retry: Option<RetryStrategy>,
    pub app_namespace: Option<String>,
    pub project: Option<String>,
}

/// How a failed sync is retried.
#[derive(Debug, Clone)]
pub struct RetryStrategy {
    pub limit: Option<i64>,
    pub backoff: Option<Backoff>,
}

/// Backoff between sync retries.
#[derive(Debug, Clone)]
pub struct Backoff {
    pub duration: Option<String>,
    pub max_duration: Option<String>,
    pub factor: Option<i64>,
}

/// The compact result of a sync.
#[derive(Debug, Clone)]
pub struct ApplicationSyncSummary {
    pub name: String,
    pub dry_run: bool,
    pub sync_status: Option<String>,
    pub sync_revision: Option<String>,
    pub health_status: Option<String>,
    pub target_revision: Option<String>,
    pub prune_enabled: bool,
    pub force_enabled: bool,
    pub sync_options: Vec<String>,
    pub resources_count: Option<usize>,
}

/// The state of an application before and after a refresh.
#[derive(Debug, Clone)]
pub struct RefreshApplicationSummary {
    pub application_name: String,
    pub refresh_type: String,
    pub sync_status_before: String,
    pub sync_status_after: String,
    pub health_status_before: String,
    pub health_status_after: String,
    pub sync_revision_before: Option<String>,
    pub sync_revision_after: Option<String>,
    pub sync_status_changed: bool,
    pub health_status_changed: bool,
    pub revision_changed: bool,
    pub repo_url: Option<String>,
    pub target_revision: Option<String>,
}

/// A request to patch one resource of an application.
#[derive(Debug, Clone)]
pub struct ApplicationResourcePatchRequest {
    pub name: String,
    pub patch: String,
    pub namespace: Option<String>,
    pub resource_name: String,
    pub version: String,
    pub group: Option<String>,
    pub kind: String,
    pub patch_type: Option<String>,
    pub app_namespace: Option<String>,
    pub project: Option<String>,
}

impl ApplicationSyncWindowsSummary {
    /// The windows of a response with their count.
    pub fn from_response(response: ApplicationSyncWindowsResponse) -> (r: Self)
        ensures
            r.total_windows == response.windows@.len(),
            r.windows == response.windows,
    {
        ApplicationSyncWindowsSummary { total_windows: response.windows.len(), windows: response.windows }
    }
}

impl ApplicationRollbackSummary {
    /// What the rollback summary reports of the application returned.
    pub open spec fn summarizes(self, app: Application, history_id: i64, dry_run: bool, prune: bool) -> bool {
        &&& self.name@ == app_name(app)
        &&& self.rolled_back_to_id == history_id
        &&& self.dry_run == dry_run
        &&& self.sync_status == app_sync_status(app)
        &&& self.sync_revision == app_sync_revision(app)
        &&& self.health_status == app_health_status(app)
        &&& self.target_revision == app_target_revision(app)
        &&& self.prune_enabled == prune
    }

    /// Summarizes the application returned by a rollback.
    pub fn from_application(app: Application, history_id: i64, dry_run: bool, prune: bool) -> (r: Self)
        ensures
            r.summarizes(app, history_id, dry_run, prune),
    {
        let name = application_name(&app);
        let (sync_status, sync_revision, health_status) = status_fields(&app.status);
        let target_revision = target_revision_of(&app.spec);
        ApplicationRollbackSummary {
            name,
            rolled_back_to_id: history_id,
            dry_run,
            sync_status,
            sync_revision,
            health_status,
            target_revision,
            prune_enabled: prune,
        }
    }
}

impl ApplicationSyncSummary {
    /// What the sync summary reports of the application returned.
    pub open spec fn summarizes(
        self,
        app: Application,
        dry_run: bool,
        prune: bool,
        force: bool,
        sync_options: Seq<String>,
        resources_count: Option<usize>,
    ) -> bool {
        &&& self.name@ == app_name(app)
        &&& self.dry_run == dry_run
        &&& self.sync_status == app_sync_status(app)
        &&& self.sync_revision == app_sync_revision(app)
        &&& self.health_status == app_health_status(app)
        &&& self.target_revision == app_target_revision(app)
        &&& self.prune_enabled == prune
        &&& self.force_enabled == force
        &&& self.sync_options@ == sync_options
        &&& self.resources_count == resources_count
    }

    /// Summarizes the application returned by a sync.
    pub fn from_application(
        app: Application,
        dry_run: bool,
        prune: bool,
        force: bool,
        sync_options: Vec<String>,
        resources_count: Option<usize>,
    ) -> (r: Self)
        ensures
            r.summarizes(app, dry_run, prune, force, sync_options@, resources_count),
    {
        let name = application_name(&app);
        let (sync_status, sync_revision, health_status) = status_fields(&app.status);
        let target_revision = target_revision_of(&app.spec);
        ApplicationSyncSummary {
            name,
            dry_run,
            sync_status,
            sync_revision,
            health_status,
            target_revision,
            prune_enabled: prune,
            force_enabled: force,
            sync_options,
            resources_count,
        }
    }
}

/// The refresh mode requested, `hard` when none is given.
pub open spec fn refresh_mode(refresh_type: Option<String>) -> Seq<char> {
    match refresh_type {
        Some(t) => t@,
        None => "hard"@,
    }
}

/// An optional status text, `Unknown` when absent.
pub open spec fn status_or_unknown(s: Option<String>) -> Seq<char> {
    match s {
        Some(x) => x@,
        None => "Unknown"@,
    }
}

/// The views of an optional string.
pub open spec fn opt_view(s: Option<String>) -> Option<Seq<char>> {
    match s {
        Some(x) => Some(x@),
        None => None,
    }
}

/// The refresh mode sent with the second read of a refresh: the one given, or `hard`.
pub fn refresh_parameter(refresh_type: &Option<String>) -> (r: String)
    ensures
        r@ == refresh_mode(*refresh_type),
{
    match refresh_type {
        Some(t) => t.clone(),
        None => "hard".to_owned(),
    }
}

fn same_opt_text(a: &Option<String>, b: &Option<String>) -> (r: bool)
    ensures
        r == (opt_view(*a) == opt_view(*b)),
{
    match (a, b) {
        (Some(x), Some(y)) => *x == *y,
        (None, None) => true,
        _ => false,
    }
}

impl RefreshApplicationSummary {
    /// What the refresh summary reports of the states before and after.
    pub open spec fn compares(self, application_name: String, refresh_type: Option<String>, before: Application, after: Application) -> bool {
        &&& self.application_name == application_name
        &&& self.refresh_type@ == refresh_mode(refresh_type)
        &&& self.sync_status_before@ == status_or_unknown(app_sync_status(before))
        &&& self.sync_status_after@ == status_or_unknown(app_sync_status(after))
        &&& self.health_status_before@ == status_or_unknown(app_health_status(before))
        &&& self.health_status_after@ == status_or_unknown(app_health_status(after))
        &&& self.sync_revision_before == app_sync_revision(before)
        &&& self.sync_revision_after == app_sync_revision(after)
        &&& self.sync_status_changed == (self.sync_status_before@ != self.sync_status_after@)
        &&& self.health_status_changed == (self.health_status_before@ != self.health_status_after@)
        &&& self.revision_changed == (opt_view(app_sync_revision(before)) != opt_view(app_sync_revision(after)))
        &&& match app_repo_url(after) {
            Some(u) => self.repo_url == Some(u),
            None => self.repo_url matches Some(u) && u@ == "Unknown"@,
        }
        &&& self.target_revision == app_target_revision(after)
    }

    /// Compares the state of an application before and after a refresh.
    pub fn from_states(application_name: String, refresh_type: Option<String>, before: Application, after: Application) -> (r: Self)
        ensures
            r.compares(application_name, refresh_type, before, after),
    {
        let (sync_before, sync_revision_before, health_before) = status_fields(&before.status);
        let (sync_after, sync_revision_after, health_after) = status_fields(&after.status);
        let sync_status_before = match sync_before {
            Some(s) => s,
            None => "Unknown".to_owned(),
        };
        let sync_status_after = match sync_after {
            Some(s) => s,
            None => "Unknown".to_owned(),
        };
        let health_status_before = match health_before {
            Some(s) => s,
            None => "Unknown".to_owned(),
        };
        let health_status_after = match health_after {
            Some(s) => s,
            None => "Unknown".to_owned(),
        };
        let (repo_url, target_revision) = match &after.spec {
            Some(spec) => match &spec.source {
                Some(src) => (Some(src.repo_url.clone()), src.target_revision.clone()),
                None => (None, None),
            },
            None => (None, None),
        };
        let repo_url = match repo_url {
            Some(u) => Some(u),
            None => Some("Unknown".to_owned()),
        };
        let sync_status_changed = !(sync_status_before == sync_status_after);
        let health_status_changed = !(health_status_before == health_status_after);
        let revision_changed = !same_opt_text(&sync_revision_before, &sync_revision_after);
        RefreshApplicationSummary {
            application_name,
            refresh_type: refresh_parameter(&refresh_type),
            sync_status_before,
            sync_status_after,
            health_status_before,
            health_status_after,
            sync_revision_before,
            sync_revision_after,
            sync_status_changed,
            health_status_changed,
            revision_changed,
            repo_url,
            target_revision,
        }
    }
}

} // verus!
