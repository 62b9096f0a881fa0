//! Verified core of an ArgoCD MCP server: the data model of ArgoCD
//! applications, the context-efficient summaries built from it, the
//! requests sent to the ArgoCD API and the text rendered for each tool.

pub mod answers;
pub mod application;
pub mod argocd_client;
pub mod diff;
pub mod events;
pub mod json;
pub mod laws;
pub mod logs;
pub mod manifests;
pub mod models;
pub mod operations;
pub mod report;
pub mod revision;
pub mod tally;
pub mod text;
pub mod tools;
pub mod tree;
pub mod url;
