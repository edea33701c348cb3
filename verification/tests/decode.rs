use github_actions_client::decode::{
    decode_artifact, decode_artifact_collection, decode_cache_usage, decode_cache_usage_list,
    decode_project_cache_usage,
};
use github_actions_client::errors::Errors;
use github_actions_client::timestamp::DateTime;
use github_actions_client::wire::{
    TempGithubArtifact, TempGithubArtifacts, TempGithubCacheUsage, TempGithubCacheUsages,
    TempGithubProjectCacheUsage,
};

fn wire_artifact(id: u128, name: &str) -> TempGithubArtifact {
    TempGithubArtifact {
        id,
        node_id: format!("n{}", id),
        name: name.to_string(),
        size_in_megabytes: 3,
        url: "u".to_string(),
        archive_download_url: "d".to_string(),
        expired: false,
        created_at: "2023-01-02T03:04:05Z".to_string(),
        expires_at: "2023-02-02T03:04:05Z".to_string(),
        updated_at: "2023-01-03T03:04:05Z".to_string(),
    }
}

#[test]
fn artifact_fields_copied_and_timestamps_decoded() {
    let decoded = decode_artifact(&wire_artifact(7, "a")).unwrap();
    assert_eq!(decoded.id, 7);
    assert_eq!(decoded.node_id, "n7");
    assert_eq!(decoded.name, "a");
    assert_eq!(decoded.size_in_megabytes, 3);
    assert_eq!(decoded.url, "u");
    assert_eq!(decoded.archive_download_url, "d");
    assert!(!decoded.expired);
    assert_eq!(
        decoded.created_at,
        DateTime { year: 2023, month: 1, day: 2, hour: 3, minute: 4, second: 5 }
    );
    assert_eq!(
        decoded.expires_at,
        DateTime { year: 2023, month: 2, day: 2, hour: 3, minute: 4, second: 5 }
    );
    assert_eq!(
        decoded.updated_at,
        DateTime { year: 2023, month: 1, day: 3, hour: 3, minute: 4, second: 5 }
    );
}

#[test]
fn artifact_with_bad_created_at_fails() {
    let mut raw = wire_artifact(1, "a");
    raw.created_at = "not-a-date".to_string();
    assert_eq!(decode_artifact(&raw), Err(Errors::ParseError));
}

#[test]
fn artifact_with_bad_expires_at_fails() {
    let mut raw = wire_artifact(1, "a");
    raw.expires_at = "2023-13-01T00:00:00Z".to_string();
    assert_eq!(decode_artifact(&raw), Err(Errors::ParseError));
}

#[test]
fn artifact_with_bad_updated_at_fails() {
    let mut raw = wire_artifact(1, "a");
    raw.updated_at = "".to_string();
    assert_eq!(decode_artifact(&raw), Err(Errors::ParseError));
}

#[test]
fn empty_collection_is_absent() {
    let raw = TempGithubArtifacts { total_count: 0, artifacts: vec![] };
    assert_eq!(decode_artifact_collection(&raw), Ok(None));
}

#[test]
fn zero_total_count_wins_over_nonempty_list() {
    let raw = TempGithubArtifacts { total_count: 0, artifacts: vec![wire_artifact(1, "a")] };
    assert_eq!(decode_artifact_collection(&raw), Ok(None));
}

#[test]
fn zero_total_count_ignores_malformed_entries() {
    let mut bad = wire_artifact(1, "a");
    bad.created_at = "not-a-date".to_string();
    let raw = TempGithubArtifacts { total_count: 0, artifacts: vec![bad] };
    assert_eq!(decode_artifact_collection(&raw), Ok(None));
}

#[test]
fn singleton_collection_is_present() {
    let raw = TempGithubArtifacts {
        total_count: 1,
        artifacts: vec![TempGithubArtifact {
            id: 7,
            node_id: "n1".to_string(),
            name: "a".to_string(),
            size_in_megabytes: 3,
            url: "u".to_string(),
            archive_download_url: "d".to_string(),
            expired: false,
            created_at: "2023-01-02T03:04:05Z".to_string(),
            expires_at: "2023-02-02T03:04:05Z".to_string(),
            updated_at: "2023-01-03T03:04:05Z".to_string(),
        }],
    };
    let col = decode_artifact_collection(&raw).unwrap().unwrap();
    assert_eq!(col.total_count, 1);
    assert_eq!(col.artifacts.len(), 1);
    assert_eq!(col.artifacts[0].id, 7);
    assert_eq!(col.artifacts[0].node_id, "n1");
    assert_eq!(
        col.artifacts[0].created_at,
        DateTime { year: 2023, month: 1, day: 2, hour: 3, minute: 4, second: 5 }
    );
}

#[test]
fn collection_preserves_server_order() {
    let raw = TempGithubArtifacts {
        total_count: 3,
        artifacts: vec![wire_artifact(5, "c"), wire_artifact(2, "a"), wire_artifact(9, "b")],
    };
    let col = decode_artifact_collection(&raw).unwrap().unwrap();
    assert_eq!(col.total_count, 3);
    let names: Vec<&str> = col.artifacts.iter().map(|a| a.name.as_str()).collect();
    assert_eq!(names, ["c", "a", "b"]);
    let ids: Vec<u128> = col.artifacts.iter().map(|a| a.id).collect();
    assert_eq!(ids, [5, 2, 9]);
}

#[test]
fn collection_keeps_total_count_beyond_page() {
    // One page of a larger listing: the total count is the server's,
    // not the page length.
    let raw = TempGithubArtifacts {
        total_count: 42,
        artifacts: vec![wire_artifact(1, "a"), wire_artifact(2, "b")],
    };
    let col = decode_artifact_collection(&raw).unwrap().unwrap();
    assert_eq!(col.total_count, 42);
    assert_eq!(col.artifacts.len(), 2);
}

#[test]
fn collection_with_malformed_entry_fails() {
    let mut bad = wire_artifact(2, "b");
    bad.created_at = "not-a-date".to_string();
    let raw = TempGithubArtifacts { total_count: 2, artifacts: vec![wire_artifact(1, "a"), bad] };
    assert_eq!(decode_artifact_collection(&raw), Err(Errors::ParseError));
}

#[test]
fn cache_usage_remap_is_lossless() {
    let raw = TempGithubCacheUsage {
        total_active_caches_size_in_bytes: 123456789,
        total_active_caches_count: 42,
    };
    let usage = decode_cache_usage(raw);
    assert_eq!(usage.size_in_bytes, 123456789);
    assert_eq!(usage.count, 42);
}

#[test]
fn project_cache_usage_remap_is_lossless() {
    let raw = TempGithubProjectCacheUsage {
        full_name: "octo/repo".to_string(),
        total_active_caches_size_in_bytes: 2048,
        total_active_caches_count: 3,
    };
    let usage = decode_project_cache_usage(&raw);
    assert_eq!(usage.full_name, "octo/repo");
    assert_eq!(usage.size_in_bytes, 2048);
    assert_eq!(usage.count, 3);
}

#[test]
fn empty_cache_usage_list_is_absent() {
    let raw = TempGithubCacheUsages { total_count: 0, repository_cache_usages: vec![] };
    assert_eq!(decode_cache_usage_list(&raw), None);
}

#[test]
fn zero_total_count_cache_list_wins_over_entries() {
    let raw = TempGithubCacheUsages {
        total_count: 0,
        repository_cache_usages: vec![TempGithubProjectCacheUsage {
            full_name: "octo/repo".to_string(),
            total_active_caches_size_in_bytes: 1,
            total_active_caches_count: 1,
        }],
    };
    assert_eq!(decode_cache_usage_list(&raw), None);
}

#[test]
fn cache_usage_list_preserves_order() {
    let raw = TempGithubCacheUsages {
        total_count: 2,
        repository_cache_usages: vec![
            TempGithubProjectCacheUsage {
                full_name: "octo/beta".to_string(),
                total_active_caches_size_in_bytes: 10,
                total_active_caches_count: 1,
            },
            TempGithubProjectCacheUsage {
                full_name: "octo/alpha".to_string(),
                total_active_caches_size_in_bytes: 20,
                total_active_caches_count: 2,
            },
        ],
    };
    let usages = decode_cache_usage_list(&raw).unwrap();
    assert_eq!(usages.len(), 2);
    assert_eq!(usages[0].full_name, "octo/beta");
    assert_eq!(usages[0].size_in_bytes, 10);
    assert_eq!(usages[1].full_name, "octo/alpha");
    assert_eq!(usages[1].count, 2);
}
