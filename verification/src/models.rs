//! The data model of the ArgoCD API and the summaries built from it, in
//! one place.

pub use crate::application::{
    Application, ApplicationDestination, ApplicationDetailOutput, ApplicationList, ApplicationSource, ApplicationSpec,
    ApplicationStatus, ApplicationSummary, ApplicationSummaryOutput, AutomatedSyncPolicy, HealthStatus, ListMetadata,
    ObjectMeta, SyncPolicy, SyncStatus,
};
pub use crate::diff::{ApplicationServerSideDiffResponse, ResourceDiff, ServerSideDiffSummary};
pub use crate::events::{
    Event, EventList, EventListSummary, EventMetadata, EventSeries, EventSource, EventSummary, ListMeta, ObjectReference,
};
pub use crate::logs::{AnalyzedLogEntry, LogEntry, LogLevel, PodLogsSummary};
pub use crate::manifests::{
    ApplicationResourceResponse, ApplicationResourceSummary, ManifestResponse, ManifestSummary, ParsedManifest,
    ResourceManifestSummary,
};
pub use crate::operations::{
    ApplicationResourcePatchRequest, ApplicationRollbackRequest, ApplicationRollbackResponse, ApplicationRollbackSummary,
    ApplicationSyncRequest, ApplicationSyncSummary, ApplicationSyncWindow, ApplicationSyncWindowsResponse,
    ApplicationSyncWindowsSummary, Backoff, RefreshApplicationSummary, RetryStrategy, SyncResource, SyncStrategy,
    SyncStrategyApply, SyncStrategyHook,
};
pub use crate::revision::{
    ApplicationHistorySummary, OperationInitiator, RevisionHistory, RevisionHistorySummary, RevisionMetadata,
    RevisionMetadataSummary,
};
pub use crate::tree::{
    ApplicationTree, HostInfo, HostSystemInfo, InfoItem, LoadBalancerIngress, ResourceNetworkingInfo, ResourceNode,
    ResourceNodeSummary, ResourceRef, ResourceTreeSummary,
};
