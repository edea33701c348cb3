use vstd::prelude::*;

verus! {

/// Wire shape of one artifact, exactly as the remote API returns it:
/// the same scalar fields as the domain shape, timestamps still strings.
#[derive(Clone, Debug, PartialEq, Eq)]
pub struct TempGithubArtifact {
    pub id: u128,
    pub node_id: String,
    pub name: String,
    pub size_in_megabytes: u128,
    pub url: String,
    pub archive_download_url: String,
    pub expired: bool,
    pub created_at: String,
    pub expires_at: String,
    pub updated_at: String,
}

/// Wire shape of an artifact listing: the server's total count plus
/// one page of artifacts.
#[derive(Clone, Debug, PartialEq, Eq)]
pub struct TempGithubArtifacts {
    pub total_count: u128,
    pub artifacts: Vec<TempGithubArtifact>,
}

/// Wire shape of the aggregate cache-usage payload, under the verbose
/// field names of the remote schema.
#[derive(Clone, Copy, Debug, PartialEq, Eq, Structural)]
pub struct TempGithubCacheUsage {
    pub total_active_caches_size_in_bytes: u128,
    pub total_active_caches_count: u128,
}

/// Wire shape of one per-repository cache-usage entry, under the
/// verbose field names of the remote schema.
#[derive(Clone, Debug, PartialEq, Eq)]
pub struct TempGithubProjectCacheUsage {
    pub full_name: String,
    pub total_active_caches_size_in_bytes: u128,
    pub total_active_caches_count: u16,
}

/// Wire shape of the cross-repository cache-usage listing.
#[derive(Clone, Debug, PartialEq, Eq)]
pub struct TempGithubCacheUsages {
    pub total_count: u128,
    pub repository_cache_usages: Vec<TempGithubProjectCacheUsage>,
}

}
