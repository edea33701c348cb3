use vstd::prelude::*;

use crate::timestamp::DateTime;

verus! {

/// One stored workflow-run output, in its domain shape: scalar fields
/// copied from the wire, timestamps decoded to `DateTime`. Created only
/// by decoding a server response; never mutated afterwards.
#[derive(Clone, Debug, PartialEq, Eq)]
pub struct GithubArtifact {
    pub id: u128,
    pub node_id: String,
    pub name: String,
    pub size_in_megabytes: u128,
    pub url: String,
    pub archive_download_url: String,
    pub expired: bool,
    pub created_at: DateTime,
    pub expires_at: DateTime,
    pub updated_at: DateTime,
}

/// A present artifact collection: the server's total count together
/// with one page of artifacts in server order. The total count may
/// exceed the number of elements on the page. A zero total count is
/// never represented here — decoding collapses it to the absent result.
#[derive(Clone, Debug, PartialEq, Eq)]
pub struct GithubArtifacts {
    pub total_count: u128,
    pub artifacts: Vec<GithubArtifact>,
}

/// Total Actions cache usage for an organization or enterprise scope.
#[derive(Clone, Copy, Debug, PartialEq, Eq, Structural)]
pub struct GithubCacheUsage {
    pub size_in_bytes: u128,
    pub count: u128,
}

/// Actions cache usage of a single repository: one entry of the
/// paginated cross-repository listing.
#[derive(Clone, Debug, PartialEq, Eq)]
pub struct GithubProjectCacheUsage {
    pub full_name: String,
    pub size_in_bytes: u128,
    pub count: u16,
}

/// Actions permission settings of an organization.
#[derive(Clone, Debug, PartialEq, Eq)]
pub struct GithubActionsPermissions {
    pub enabled_organizations: String,
    pub allowed_actions: String,
    pub url: String,
}

}
