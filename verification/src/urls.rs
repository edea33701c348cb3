use vstd::prelude::*;
use vstd::string::StringExecFns;

use crate::timestamp::{digit_char, digit_str};

verus! {

/// Decimal rendering of `n`: most significant digit first, no leading
/// zeros (a single `0` for zero).
pub open spec fn dec_str(n: nat) -> Seq<char>
    decreases n,
{
    if n < 10 {
        seq![digit_char(n as int)]
    } else {
        dec_str(n / 10) + seq![digit_char((n % 10) as int)]
    }
}

/// Renders an identifier for use in a URL path segment.
pub fn u128_to_string(n: u128) -> (r: String)
    ensures
        r@ == dec_str(n as nat),
    decreases n,
{
    if n < 10 {
        String::from_str(digit_str(n as u8))
    } else {
        let mut r = u128_to_string(n / 10);
        r.append(digit_str((n % 10) as u8));
        proof {
            assert(r@ =~= dec_str(n as nat));
        }
        r
    }
}

/// The effective pagination query: page size defaults to 30 and page
/// number to 1 when unspecified.
pub fn page_query(per_page: Option<u8>, page: Option<u8>) -> (r: (u8, u8))
    ensures
        r.0 == (match per_page {
            Some(v) => v,
            None => 30u8,
        }),
        r.1 == (match page {
            Some(v) => v,
            None => 1u8,
        }),
{
    let pp = match per_page {
        Some(v) => v,
        None => 30,
    };
    let p = match page {
        Some(v) => v,
        None => 1,
    };
    (pp, p)
}

/// URL of the artifact listing of a repository.
pub fn artifacts_list_url(base_url: &str, owner: &str, repo: &str) -> (r: String)
    ensures
        r@ == base_url@ + "/repos/"@ + owner@ + "/"@ + repo@ + "/actions/artifacts"@,
{
    let mut r = String::from_str(base_url);
    r.append("/repos/");
    r.append(owner);
    r.append("/");
    r.append(repo);
    r.append("/actions/artifacts");
    r
}

/// URL of one artifact of a repository.
pub fn artifact_url(base_url: &str, owner: &str, repo: &str, artifact_id: u128) -> (r: String)
    ensures
        r@ == base_url@ + "/repos/"@ + owner@ + "/"@ + repo@ + "/actions/artifacts/"@ + dec_str(
            artifact_id as nat,
        ),
{
    let mut r = String::from_str(base_url);
    r.append("/repos/");
    r.append(owner);
    r.append("/");
    r.append(repo);
    r.append("/actions/artifacts/");
    let id_str = u128_to_string(artifact_id);
    r.append(id_str.as_str());
    r
}

/// URL of the downloadable archive of one artifact; the archive format
/// defaults to `zip` when unspecified.
pub fn artifact_data_url(
    base_url: &str,
    owner: &str,
    repo: &str,
    artifact_id: u128,
    artifact_format: Option<String>,
) -> (r: String)
    ensures
        r@ == base_url@ + "/repos/"@ + owner@ + "/"@ + repo@ + "/actions/artifacts/"@ + dec_str(
            artifact_id as nat,
        ) + "/"@ + (match artifact_format {
            Some(f) => f@,
            None => "zip"@,
        }),
{
    let mut r = String::from_str(base_url);
    r.append("/repos/");
    r.append(owner);
    r.append("/");
    r.append(repo);
    r.append("/actions/artifacts/");
    let id_str = u128_to_string(artifact_id);
    r.append(id_str.as_str());
    r.append("/");
    match artifact_format {
        Some(f) => { r.append(f.as_str()) },
        None => { r.append("zip") },
    };
    r
}

/// URL of the artifact listing of one workflow run.
pub fn run_artifacts_url(base_url: &str, owner: &str, repo: &str, run_id: u128) -> (r: String)
    ensures
        r@ == base_url@ + "/repos/"@ + owner@ + "/"@ + repo@ + "/actions/runs/"@ + dec_str(
            run_id as nat,
        ) + "/artifacts"@,
{
    let mut r = String::from_str(base_url);
    r.append("/repos/");
    r.append(owner);
    r.append("/");
    r.append(repo);
    r.append("/actions/runs/");
    let id_str = u128_to_string(run_id);
    r.append(id_str.as_str());
    r.append("/artifacts");
    r
}

/// URL of the aggregate cache usage of an organization, or of an
/// enterprise when the flag says so: the flag selects one of two
/// distinct URL templates.
pub fn cache_usage_url(base_url: &str, name: &str, enterprise: bool) -> (r: String)
    ensures
        enterprise ==> r@ == base_url@ + "/enterprises/"@ + name@ + "/actions/cache/usage"@,
        !enterprise ==> r@ == base_url@ + "/orgs/"@ + name@ + "/actions/cache/usage"@,
{
    let mut r = String::from_str(base_url);
    if enterprise {
        r.append("/enterprises/");
    } else {
        r.append("/orgs/");
    }
    r.append(name);
    r.append("/actions/cache/usage");
    r
}

/// URL of the cache usage of one repository.
pub fn project_cache_usage_url(base_url: &str, owner: &str, repo: &str) -> (r: String)
    ensures
        r@ == base_url@ + "/repos/"@ + owner@ + "/"@ + repo@ + "/actions/cache/usage"@,
{
    let mut r = String::from_str(base_url);
    r.append("/repos/");
    r.append(owner);
    r.append("/");
    r.append(repo);
    r.append("/actions/cache/usage");
    r
}

/// URL of the cross-repository cache-usage listing of an organization.
/// This endpoint is pinned to the public API host.
pub fn cache_usage_by_repo_url(name: &str) -> (r: String)
    ensures
        r@ == "https://api.github.com/orgs/"@ + name@ + "/actions/cache/usage-by-repository"@,
{
    let mut r = String::from_str("https://api.github.com/orgs/");
    r.append(name);
    r.append("/actions/cache/usage-by-repository");
    r
}

}
