use vstd::prelude::*;

use crate::errors::Errors;
use crate::structs::{GithubArtifact, GithubArtifacts, GithubCacheUsage, GithubProjectCacheUsage};
use crate::timestamp::{github_time_parse, parsed_date_time, valid_timestamp};
use crate::wire::{
    TempGithubArtifact, TempGithubArtifacts, TempGithubCacheUsage, TempGithubCacheUsages,
    TempGithubProjectCacheUsage,
};

verus! {

/// All three timestamp fields of a wire artifact are well formed.
pub open spec fn artifact_times_ok(w: TempGithubArtifact) -> bool {
    &&& valid_timestamp(w.created_at@)
    &&& valid_timestamp(w.expires_at@)
    &&& valid_timestamp(w.updated_at@)
}

/// `a` is the domain shape of the wire artifact `w`: every scalar field
/// copied verbatim, every timestamp field decoded.
pub open spec fn decoded_artifact(w: TempGithubArtifact, a: GithubArtifact) -> bool {
    &&& a.id == w.id
    &&& a.node_id@ == w.node_id@
    &&& a.name@ == w.name@
    &&& a.size_in_megabytes == w.size_in_megabytes
    &&& a.url@ == w.url@
    &&& a.archive_download_url@ == w.archive_download_url@
    &&& a.expired == w.expired
    &&& a.created_at == parsed_date_time(w.created_at@)
    &&& a.expires_at == parsed_date_time(w.expires_at@)
    &&& a.updated_at == parsed_date_time(w.updated_at@)
}

pub open spec fn all_artifact_times_ok(ws: Seq<TempGithubArtifact>) -> bool {
    forall|i: int| 0 <= i < ws.len() ==> artifact_times_ok(ws[i])
}

/// Decodes one wire artifact. Fails with the format-failure kind as
/// soon as any of the three timestamps is malformed; no partial
/// artifact is ever produced.
pub fn decode_artifact(raw: &TempGithubArtifact) -> (r: Result<GithubArtifact, Errors>)
    ensures
        artifact_times_ok(*raw) ==> (r matches Ok(a) && decoded_artifact(*raw, a)),
        !artifact_times_ok(*raw) ==> r == Err::<GithubArtifact, Errors>(Errors::ParseError),
{
    let created_at = match github_time_parse(raw.created_at.as_str()) {
        Ok(t) => t,
        Err(e) => { return Err(e) },
    };
    let expires_at = match github_time_parse(raw.expires_at.as_str()) {
        Ok(t) => t,
        Err(e) => { return Err(e) },
    };
    let updated_at = match github_time_parse(raw.updated_at.as_str()) {
        Ok(t) => t,
        Err(e) => { return Err(e) },
    };
    Ok(
        GithubArtifact {
            id: raw.id,
            node_id: raw.node_id.clone(),
            name: raw.name.clone(),
            size_in_megabytes: raw.size_in_megabytes,
            url: raw.url.clone(),
            archive_download_url: raw.archive_download_url.clone(),
            expired: raw.expired,
            created_at,
            expires_at,
            updated_at,
        },
    )
}

/// Decodes an artifact-listing payload.
///
/// A zero total count collapses to the absent result even when the raw
/// list is non-empty (defensive normalization for inconsistent
/// servers). Otherwise every element is decoded in server order and the
/// present result keeps the server's total count; the first malformed
/// timestamp fails the whole decode with the format-failure kind.
pub fn decode_artifact_collection(raw: &TempGithubArtifacts) -> (r: Result<
    Option<GithubArtifacts>,
    Errors,
>)
    ensures
        raw.total_count == 0 ==> r == Ok::<Option<GithubArtifacts>, Errors>(None),
        raw.total_count != 0 && all_artifact_times_ok(raw.artifacts@) ==> (r matches Ok(c)
            && c matches Some(col) && col.total_count == raw.total_count && col.artifacts@.len()
            == raw.artifacts@.len() && (forall|i: int|
            0 <= i < raw.artifacts@.len() ==> decoded_artifact(
                raw.artifacts@[i],
                col.artifacts@[i],
            ))),
        raw.total_count != 0 && !all_artifact_times_ok(raw.artifacts@) ==> r == Err::<
            Option<GithubArtifacts>,
            Errors,
        >(Errors::ParseError),
{
    if raw.total_count == 0 {
        return Ok(None);
    }
    let n = raw.artifacts.len();
    let mut artifacts: Vec<GithubArtifact> = Vec::new();
    let mut idx: usize = 0;
    while idx < n
        invariant
            raw.total_count != 0,
            n == raw.artifacts@.len(),
            idx <= n,
            artifacts@.len() == idx,
            forall|i: int| 0 <= i < idx ==> artifact_times_ok(#[trigger] raw.artifacts@[i]),
            forall|i: int|
                0 <= i < idx ==> decoded_artifact(raw.artifacts@[i], #[trigger] artifacts@[i]),
        decreases n - idx,
    {
        let a = match decode_artifact(&raw.artifacts[idx]) {
            Ok(a) => a,
            Err(e) => { return Err(e) },
        };
        proof {
            assert(artifact_times_ok(raw.artifacts@[idx as int]));
            assert(decoded_artifact(raw.artifacts@[idx as int], a));
        }
        artifacts.push(a);
        idx += 1;
    }
    proof {
        assert(all_artifact_times_ok(raw.artifacts@));
    }
    Ok(Some(GithubArtifacts { total_count: raw.total_count, artifacts }))
}

/// `u` is the domain shape of the aggregate cache-usage payload `w`:
/// each verbose wire field remapped to exactly one domain field with
/// an equal value.
pub open spec fn decoded_cache_usage(w: TempGithubCacheUsage, u: GithubCacheUsage) -> bool {
    &&& u.size_in_bytes == w.total_active_caches_size_in_bytes
    &&& u.count == w.total_active_caches_count
}

/// Remaps the aggregate cache-usage payload to its domain shape.
/// Pure field renaming; no computation, nothing dropped.
pub fn decode_cache_usage(raw: TempGithubCacheUsage) -> (r: GithubCacheUsage)
    ensures
        decoded_cache_usage(raw, r),
{
    GithubCacheUsage {
        size_in_bytes: raw.total_active_caches_size_in_bytes,
        count: raw.total_active_caches_count,
    }
}

/// `u` is the domain shape of the per-repository cache-usage entry `w`:
/// each wire field remapped to exactly one domain field with an equal
/// value.
pub open spec fn decoded_project_cache_usage(
    w: TempGithubProjectCacheUsage,
    u: GithubProjectCacheUsage,
) -> bool {
    &&& u.full_name@ == w.full_name@
    &&& u.size_in_bytes == w.total_active_caches_size_in_bytes
    &&& u.count == w.total_active_caches_count
}

/// Remaps one per-repository cache-usage entry to its domain shape.
/// Pure field renaming; no computation, nothing dropped.
pub fn decode_project_cache_usage(raw: &TempGithubProjectCacheUsage) -> (r:
    GithubProjectCacheUsage)
    ensures
        decoded_project_cache_usage(*raw, r),
{
    GithubProjectCacheUsage {
        full_name: raw.full_name.clone(),
        size_in_bytes: raw.total_active_caches_size_in_bytes,
        count: raw.total_active_caches_count,
    }
}

/// Decodes the cross-repository cache-usage listing, under the same
/// emptiness convention as artifact collections: a zero total count is
/// the absent result whatever the raw list holds; otherwise every entry
/// is remapped in server order.
pub fn decode_cache_usage_list(raw: &TempGithubCacheUsages) -> (r: Option<
    Vec<GithubProjectCacheUsage>,
>)
    ensures
        raw.total_count == 0 ==> r is None,
        raw.total_count != 0 ==> (r matches Some(v) && v@.len()
            == raw.repository_cache_usages@.len() && (forall|i: int|
            0 <= i < raw.repository_cache_usages@.len() ==> decoded_project_cache_usage(
                raw.repository_cache_usages@[i],
                v@[i],
            ))),
{
    if raw.total_count == 0 {
        return None;
    }
    let n = raw.repository_cache_usages.len();
    let mut usages: Vec<GithubProjectCacheUsage> = Vec::new();
    let mut idx: usize = 0;
    while idx < n
        invariant
            raw.total_count != 0,
            n == raw.repository_cache_usages@.len(),
            idx <= n,
            usages@.len() == idx,
            forall|i: int|
                0 <= i < idx ==> decoded_project_cache_usage(
                    raw.repository_cache_usages@[i],
                    usages@[i],
                ),
        decreases n - idx,
    {
        let u = decode_project_cache_usage(&raw.repository_cache_usages[idx]);
        usages.push(u);
        idx += 1;
    }
    Some(usages)
}

}
