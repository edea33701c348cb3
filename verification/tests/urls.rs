use github_actions_client::urls::{
    artifact_data_url, artifact_url, artifacts_list_url, cache_usage_by_repo_url,
    cache_usage_url, page_query, project_cache_usage_url, run_artifacts_url, u128_to_string,
};

const BASE: &str = "https://api.github.com";

#[test]
fn decimal_rendering() {
    assert_eq!(u128_to_string(0), "0");
    assert_eq!(u128_to_string(7), "7");
    assert_eq!(u128_to_string(30), "30");
    assert_eq!(u128_to_string(1024), "1024");
    assert_eq!(u128_to_string(u128::MAX), "340282366920938463463374607431768211455");
}

#[test]
fn pagination_defaults() {
    assert_eq!(page_query(None, None), (30, 1));
    assert_eq!(page_query(Some(50), None), (50, 1));
    assert_eq!(page_query(None, Some(3)), (30, 3));
    assert_eq!(page_query(Some(10), Some(2)), (10, 2));
}

#[test]
fn artifacts_listing_url() {
    assert_eq!(
        artifacts_list_url(BASE, "octo", "repo"),
        "https://api.github.com/repos/octo/repo/actions/artifacts"
    );
}

#[test]
fn single_artifact_url() {
    assert_eq!(
        artifact_url(BASE, "octo", "repo", 42),
        "https://api.github.com/repos/octo/repo/actions/artifacts/42"
    );
}

#[test]
fn artifact_download_url_default_format() {
    assert_eq!(
        artifact_data_url(BASE, "octo", "repo", 42, None),
        "https://api.github.com/repos/octo/repo/actions/artifacts/42/zip"
    );
}

#[test]
fn artifact_download_url_explicit_format() {
    assert_eq!(
        artifact_data_url(BASE, "octo", "repo", 42, Some("tar".to_string())),
        "https://api.github.com/repos/octo/repo/actions/artifacts/42/tar"
    );
}

#[test]
fn run_artifact_listing_url() {
    assert_eq!(
        run_artifacts_url(BASE, "octo", "repo", 9000),
        "https://api.github.com/repos/octo/repo/actions/runs/9000/artifacts"
    );
}

#[test]
fn cache_usage_url_selects_scope() {
    assert_eq!(
        cache_usage_url(BASE, "octo-org", false),
        "https://api.github.com/orgs/octo-org/actions/cache/usage"
    );
    assert_eq!(
        cache_usage_url(BASE, "octo-ent", true),
        "https://api.github.com/enterprises/octo-ent/actions/cache/usage"
    );
}

#[test]
fn repository_cache_usage_url() {
    assert_eq!(
        project_cache_usage_url(BASE, "octo", "repo"),
        "https://api.github.com/repos/octo/repo/actions/cache/usage"
    );
}

#[test]
fn cache_usage_listing_url() {
    assert_eq!(
        cache_usage_by_repo_url("octo-org"),
        "https://api.github.com/orgs/octo-org/actions/cache/usage-by-repository"
    );
}
