//! Plain descriptions of Helm releases and charts as the caller-facing layer
//! consumes them.

use vstd::prelude::*;

verus! {

/// One installed release as listed.
#[derive(Debug, Clone, PartialEq, Eq)]
pub struct HelmRelease {
    pub name: String,
    pub namespace: String,
    pub revision: String,
    pub updated: String,
    pub status: String,
    pub chart: String,
    pub app_version: String,
}

/// The deployment history and state of one release.
#[derive(Debug, Clone, PartialEq, Eq)]
pub struct HelmReleaseInfo {
    pub first_deployed: String,
    pub last_deployed: String,
    pub deleted: String,
    pub description: String,
    pub status: String,
    pub notes: String,
}

/// A chart with its metadata.
#[derive(Debug, Clone, PartialEq, Eq)]
pub struct HelmChart {
    pub metadata: HelmChartMetadata,
}

/// A chart's metadata.
#[derive(Debug, Clone, PartialEq, Eq)]
pub struct HelmChartMetadata {
    pub name: String,
    pub version: String,
    pub description: Option<String>,
    pub api_version: String,
    pub app_version: Option<String>,
    pub keywords: Option<Vec<String>>,
    pub home: Option<String>,
    pub sources: Option<Vec<String>>,
}

} // verus!
