use beanal::update_check::{
    local_version, newer_release_url, release_link, trim_version_prefix, GitHubRelease, UpdateError,
};

fn release(tag: &str) -> GitHubRelease {
    GitHubRelease {
        tag_name: tag.to_string(),
        html_url: "https://example.org/release".to_string(),
    }
}

#[test]
fn tags_lose_their_v_prefix() {
    assert_eq!(trim_version_prefix("v1.5.1"), "1.5.1");
    assert_eq!(trim_version_prefix("vv2.0.0"), "2.0.0");
    assert_eq!(trim_version_prefix("1.0.0"), "1.0.0");
    assert_eq!(trim_version_prefix("version"), "ersion");
    assert_eq!(trim_version_prefix(""), "");
}

#[test]
fn only_strictly_newer_releases_are_offered() {
    let local = local_version("1.5.0").unwrap();
    assert_eq!(newer_release_url(&local, &release("v1.5.1")).as_deref(), Some("https://example.org/release"));
    assert_eq!(newer_release_url(&local, &release("1.5.0")), None);
    assert_eq!(newer_release_url(&local, &release("v1.4.9")), None);
    assert_eq!(newer_release_url(&local, &release("v2.0.0-beta.1")).is_some(), true);
    assert_eq!(newer_release_url(&local, &release("1.5.0-rc.1")), None);
}

#[test]
fn non_semver_tags_are_ignored() {
    let local = local_version("1.5.0").unwrap();
    assert_eq!(newer_release_url(&local, &release("latest")), None);
    assert_eq!(newer_release_url(&local, &release("v2.0")), None);
}

#[test]
fn invalid_local_version_is_an_error() {
    match local_version("1.0") {
        Err(e @ UpdateError::InvalidLocalVersion { .. }) => {
            let UpdateError::InvalidLocalVersion { version, .. } = &e;
            assert_eq!(version, "1.0");
            assert!(e.message().starts_with("Critical: Local version '1.0' is not SemVer compliant: "));
        }
        Ok(_) => panic!("1.0 is no semantic version"),
    }
}

#[test]
fn release_link_only_for_newer() {
    let r = release("v9.9.9");
    assert_eq!(release_link(Some(true), &r).as_deref(), Some("https://example.org/release"));
    assert_eq!(release_link(Some(false), &r), None);
    assert_eq!(release_link(None, &r), None);
}
