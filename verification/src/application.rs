//! The ArgoCD `Application` resource (only the fields the tools use) and
//! the compact list and detail views built from it.

use vstd::prelude::*;

verus! {

/// An ArgoCD application; every part may be absent in a response.
#[derive(Debug, Clone)]
pub struct Application {
    pub metadata: Option<ObjectMeta>,
    pub spec: Option<ApplicationSpec>,
    pub status: Option<ApplicationStatus>,
}

/// Kubernetes object metadata. Labels and annotations are key/value pairs
/// with distinct keys.
#[derive(Debug, Clone)]
pub struct ObjectMeta {
    pub name: String,
    pub namespace: Option<String>,
    pub labels: Option<Vec<(String, String)>>,
    pub annotations: Option<Vec<(String, String)>>,
    pub creation_timestamp: Option<String>,
}

/// Desired state of an application.
#[derive(Debug, Clone)]
pub struct ApplicationSpec {
    pub source: Option<ApplicationSource>,
    pub destination: Option<ApplicationDestination>,
    pub project: Option<String>,
    pub sync_policy: Option<SyncPolicy>,
}

/// Where the manifests of an application come from.
#[derive(Debug, Clone)]
pub struct ApplicationSource {
    pub repo_url: String,
    pub path: Option<String>,
    pub target_revision: Option<String>,
    pub chart: Option<String>,
}

/// The cluster and namespace an application deploys to.
#[derive(Debug, Clone)]
pub struct ApplicationDestination {
    pub server: Option<String>,
    pub namespace: Option<String>,
    pub name: Option<String>,
}

/// Synchronisation policy of an application.
#[derive(Debug, Clone)]
pub struct SyncPolicy {
    pub automated: Option<AutomatedSyncPolicy>,
}

/// Automated synchronisation settings.
#[derive(Debug, Clone)]
pub struct AutomatedSyncPolicy {
    pub prune: Option<bool>,
    pub self_heal: Option<bool>,
}

/// Observed state of an application.
#[derive(Debug, Clone)]
pub struct ApplicationStatus {
    pub health: Option<HealthStatus>,
    pub sync: Option<SyncStatus>,
    pub summary: Option<ApplicationSummary>,
    pub history: Option<Vec<crate::revision::RevisionHistory>>,
}

/// Health of an application or resource.
#[derive(Debug, Clone)]
pub struct HealthStatus {
    pub status: String,
    pub message: Option<String>,
}

/// Sync state of an application.
#[derive(Debug, Clone)]
pub struct SyncStatus {
    pub status: String,
    pub revision: Option<String>,
}

/// External URLs and images of an application.
#[derive(Debug, Clone)]
pub struct ApplicationSummary {
    pub external_urls: Option<Vec<String>>,
    pub images: Option<Vec<String>>,
}

/// A list of applications as returned by the API.
#[derive(Debug, Clone)]
pub struct ApplicationList {
    pub metadata: Option<ListMetadata>,
    pub items: Vec<Application>,
}

/// Metadata of a list response.
#[derive(Debug, Clone)]
pub struct ListMetadata {
    pub resource_version: Option<String>,
}

/// One line of the application list: the essential fields only.
#[derive(Debug, Clone)]
pub struct ApplicationSummaryOutput {
    pub name: String,
    pub namespace: Option<String>,
    pub project: Option<String>,
    pub repo_url: Option<String>,
    pub target_revision: Option<String>,
    pub destination_server: Option<String>,
    pub destination_namespace: Option<String>,
    pub sync_status: Option<String>,
    pub health_status: Option<String>,
    pub auto_sync: Option<bool>,
}

/// The detailed view of one application.
#[derive(Debug, Clone)]
pub struct ApplicationDetailOutput {
    pub name: String,
    pub namespace: Option<String>,
    pub project: Option<String>,
    pub repo_url: Option<String>,
    pub path: Option<String>,
    pub chart: Option<String>,
    pub target_revision: Option<String>,
    pub destination_server: Option<String>,
    pub destination_namespace: Option<String>,
    pub destination_name: Option<String>,
    pub sync_status: Option<String>,
    pub sync_revision: Option<String>,
    pub health_status: Option<String>,
    pub health_message: Option<String>,
    pub auto_sync_enabled: Option<bool>,
    pub auto_sync_prune: Option<bool>,
    pub auto_sync_self_heal: Option<bool>,
    pub labels: Option<Vec<(String, String)>>,
    pub creation_timestamp: Option<String>,
}

// ---------------------------------------------------------------------
// Paths into an application, as spec functions.
// ---------------------------------------------------------------------

/// The name of an application, or the empty string when metadata is absent.
pub open spec fn app_name(app: Application) -> Seq<char> {
    match app.metadata {
        Some(m) => m.name@,
        None => Seq::empty(),
    }
}

/// `metadata.namespace`.
pub open spec fn app_namespace(app: Application) -> Option<String> {
    match app.metadata {
        Some(m) => m.namespace,
        None => None,
    }
}

/// `spec.project`.
pub open spec fn app_project(app: Application) -> Option<String> {
    match app.spec {
        Some(s) => s.project,
        None => None,
    }
}

/// `spec.source`.
pub open spec fn app_source(app: Application) -> Option<ApplicationSource> {
    match app.spec {
        Some(s) => s.source,
        None => None,
    }
}

/// `spec.source.repoURL`.
pub open spec fn app_repo_url(app: Application) -> Option<String> {
    match app_source(app) {
        Some(src) => Some(src.repo_url),
        None => None,
    }
}

/// `spec.source.targetRevision`.
pub open spec fn app_target_revision(app: Application) -> Option<String> {
    match app_source(app) {
        Some(src) => src.target_revision,
        None => None,
    }
}

/// `spec.destination`.
pub open spec fn app_destination(app: Application) -> Option<ApplicationDestination> {
    match app.spec {
        Some(s) => s.destination,
        None => None,
    }
}

/// `spec.syncPolicy.automated`.
pub open spec fn app_automated(app: Application) -> Option<AutomatedSyncPolicy> {
    match app.spec {
        Some(s) => match s.sync_policy {
            Some(p) => p.automated,
            None => None,
        },
        None => None,
    }
}

/// `status.sync`.
pub open spec fn app_sync(app: Application) -> Option<SyncStatus> {
    match app.status {
        Some(st) => st.sync,
        None => None,
    }
}

/// `status.health`.
pub open spec fn app_health(app: Application) -> Option<HealthStatus> {
    match app.status {
        Some(st) => st.health,
        None => None,
    }
}

/// `status.sync.status`.
pub open spec fn app_sync_status(app: Application) -> Option<String> {
    match app_sync(app) {
        Some(s) => Some(s.status),
        None => None,
    }
}

/// `status.sync.revision`.
pub open spec fn app_sync_revision(app: Application) -> Option<String> {
    match app_sync(app) {
        Some(s) => s.revision,
        None => None,
    }
}

/// `status.health.status`.
pub open spec fn app_health_status(app: Application) -> Option<String> {
    match app_health(app) {
        Some(h) => Some(h.status),
        None => None,
    }
}

/// `Some(true)` when automated sync is configured, `None` otherwise.
pub open spec fn auto_sync_flag(app: Application) -> Option<bool> {
    if app_automated(app) is Some { Some(true) } else { None }
}

/// The name of an application, or the empty string when metadata is absent.
pub fn application_name(app: &Application) -> (r: String)
    ensures
        r@ == app_name(*app),
{
    match &app.metadata {
        Some(m) => m.name.clone(),
        None => String::new(),
    }
}

/// The status fields that summaries report: `(sync status, sync revision, health status)`.
pub fn status_fields(status: &Option<ApplicationStatus>) -> (r: (Option<String>, Option<String>, Option<String>))
    ensures
        ({
            let app = Application { metadata: None, spec: None, status: *status };
            r.0 == app_sync_status(app) && r.1 == app_sync_revision(app) && r.2 == app_health_status(app)
        }),
{
    match status {
        Some(st) => {
            let (sync_status, sync_revision) = match &st.sync {
                Some(s) => (Some(s.status.clone()), s.revision.clone()),
                None => (None, None),
            };
            let health_status = match &st.health {
                Some(h) => Some(h.status.clone()),
                None => None,
            };
            (sync_status, sync_revision, health_status)
        },
        None => (None, None, None),
    }
}

/// `spec.source.targetRevision` of an optional spec.
pub fn target_revision_of(spec: &Option<ApplicationSpec>) -> (r: Option<String>)
    ensures
        r == app_target_revision(Application { metadata: None, spec: *spec, status: None }),
{
    match spec {
        Some(s) => match &s.source {
            Some(src) => src.target_revision.clone(),
            None => None,
        },
        None => None,
    }
}

impl ApplicationSummaryOutput {
    /// What the list view reports of an application.
    pub open spec fn summarizes(self, app: Application) -> bool {
        &&& self.name@ == app_name(app)
        &&& self.namespace == app_namespace(app)
        &&& self.project == app_project(app)
        &&& self.repo_url == app_repo_url(app)
        &&& self.target_revision == app_target_revision(app)
        &&& self.destination_server == match app_destination(app) {
            Some(d) => d.server,
            None => None,
        }
        &&& self.destination_namespace == match app_destination(app) {
            Some(d) => d.namespace,
            None => None,
        }
        &&& self.sync_status == app_sync_status(app)
        &&& self.health_status == app_health_status(app)
        &&& self.auto_sync == auto_sync_flag(app)
    }

    /// Builds the list view of an application.
    pub fn from_application(app: Application) -> (r: Self)
        ensures
            r.summarizes(app),
    {
        let name = application_name(&app);
        let namespace = match &app.metadata {
            Some(m) => m.namespace.clone(),
            None => None,
        };
        let target_revision = target_revision_of(&app.spec);
        let (sync_status, _sync_revision, health_status) = status_fields(&app.status);
        let mut project = None;
        let mut repo_url = None;
        let mut destination_server = None;
        let mut destination_namespace = None;
        let mut auto_sync = None;
        match &app.spec {
            Some(s) => {
                project = s.project.clone();
                match &s.source {
                    Some(src) => {
                        repo_url = Some(src.repo_url.clone());
                    },
                    None => {},
                }
                match &s.destination {
                    Some(d) => {
                        destination_server = d.server.clone();
                        destination_namespace = d.namespace.clone();
                    },
                    None => {},
                }
                match &s.sync_policy {
                    Some(p) => {
                        if p.automated.is_some() {
                            auto_sync = Some(true);
                        }
                    },
                    None => {},
                }
            },
            None => {},
        }
        ApplicationSummaryOutput {
            name,
            namespace,
            project,
            repo_url,
            target_revision,
            destination_server,
            destination_namespace,
            sync_status,
            health_status,
            auto_sync,
        }
    }
}

impl ApplicationDetailOutput {
    /// What the detail view reports of an application.
    pub open spec fn describes(self, app: Application) -> bool {
        &&& self.name@ == app_name(app)
        &&& self.namespace == app_namespace(app)
        &&& self.labels == match app.metadata {
            Some(m) => m.labels,
            None => None,
        }
        &&& self.creation_timestamp == match app.metadata {
            Some(m) => m.creation_timestamp,
            None => None,
        }
        &&& self.project == app_project(app)
        &&& self.repo_url == app_repo_url(app)
        &&& self.path == match app_source(app) {
            Some(src) => src.path,
            None => None,
        }
        &&& self.chart == match app_source(app) {
            Some(src) => src.chart,
            None => None,
        }
        &&& self.target_revision == app_target_revision(app)
        &&& self.destination_server == match app_destination(app) {
            Some(d) => d.server,
            None => None,
        }
        &&& self.destination_namespace == match app_destination(app) {
            Some(d) => d.namespace,
            None => None,
        }
        &&& self.destination_name == match app_destination(app) {
            Some(d) => d.name,
            None => None,
        }
        &&& self.sync_status == app_sync_status(app)
        &&& self.sync_revision == app_sync_revision(app)
        &&& self.health_status == app_health_status(app)
        &&& self.health_message == match app_health(app) {
            Some(h) => h.message,
            None => None,
        }
        &&& self.auto_sync_enabled == auto_sync_flag(app)
        &&& self.auto_sync_prune == match app_automated(app) {
            Some(a) => a.prune,
            None => None,
        }
        &&& self.auto_sync_self_heal == match app_automated(app) {
            Some(a) => a.self_heal,
            None => None,
        }
    }

    /// Builds the detail view of an application.
    pub fn from_application(app: Application) -> (r: Self)
        ensures
            r.describes(app),
    {
        let (sync_status, sync_revision, health_status) = status_fields(&app.status);
        let health_message = match &app.status {
            Some(st) => match &st.health {
                Some(h) => h.message.clone(),
                None => None,
            },
            None => None,
        };
        let Application { metadata, spec, status: _ } = app;
        let (name, namespace, labels, creation_timestamp) = match metadata {
            Some(m) => (m.name, m.namespace, m.labels, m.creation_timestamp),
            None => (String::new(), None, None, None),
        };
        let mut project = None;
        let mut repo_url = None;
        let mut path = None;
        let mut chart = None;
        let mut target_revision = None;
        let mut destination_server = None;
        let mut destination_namespace = None;
        let mut destination_name = None;
        let mut auto_sync_enabled = None;
        let mut auto_sync_prune = None;
        let mut auto_sync_self_heal = None;
        match spec {
            Some(s) => {
                project = s.project;
                match s.source {
                    Some(src) => {
                        repo_url = Some(src.repo_url);
                        path = src.path;
                        chart = src.chart;
                        target_revision = src.target_revision;
                    },
                    None => {},
                }
                match s.destination {
                    Some(d) => {
                        destination_server = d.server;
                        destination_namespace = d.namespace;
                        destination_name = d.name;
                    },
                    None => {},
                }
                match s.sync_policy {
                    Some(p) => match p.automated {
                        Some(a) => {
                            auto_sync_enabled = Some(true);
                            auto_sync_prune = a.prune;
                            auto_sync_self_heal = a.self_heal;
                        },
                        None => {},
                    },
                    None => {},
                }
            },
            None => {},
        }
        ApplicationDetailOutput {
            name,
            namespace,
            project,
            repo_url,
            path,
            chart,
            target_revision,
            destination_server,
            destination_namespace,
            destination_name,
            sync_status,
            sync_revision,
            health_status,
            health_message,
            auto_sync_enabled,
            auto_sync_prune,
            auto_sync_self_heal,
            labels,
            creation_timestamp,
        }
    }
}

} // verus!
