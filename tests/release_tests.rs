use winkioskshell::release::{
    adjust_version, is_update_available, is_version_newer, update_download_url, Asset, Release,
    VersionError,
};

fn release(tag: &str, urls: &[&str]) -> Release {
    Release {
        tag_name: tag.to_string(),
        assets: urls
            .iter()
            .map(|u| Asset { browser_download_url: u.to_string() })
            .collect(),
    }
}

#[test]
fn adjust_version_fills_minor_and_patch() {
    assert_eq!(adjust_version("v1.2"), "1.2.0");
    assert_eq!(adjust_version("v2"), "2.0.0");
    assert_eq!(adjust_version("v1.2.3"), "1.2.3");
}

#[test]
fn adjust_version_without_prefix_and_repeated_prefix() {
    assert_eq!(adjust_version("3"), "3.0.0");
    assert_eq!(adjust_version("vv4.1"), "4.1.0");
    assert_eq!(adjust_version(""), ".0.0");
    assert_eq!(adjust_version("1.2.3.4"), "1.2.3.4");
}

#[test]
fn newer_version_is_detected() {
    assert_eq!(is_version_newer("v1.3", "v1.2"), Ok(true));
    assert_eq!(is_version_newer("v2", "1.9.9"), Ok(true));
    assert_eq!(is_version_newer("v1.2.4", "v1.2.3"), Ok(true));
}

#[test]
fn same_or_older_version_is_not_newer() {
    assert_eq!(is_version_newer("v1.2", "1.2.0"), Ok(false));
    assert_eq!(is_version_newer("v1.1.9", "v1.2"), Ok(false));
    assert_eq!(is_version_newer("v0.9", "v1"), Ok(false));
}

#[test]
fn invalid_versions_are_errors() {
    assert_eq!(is_version_newer("vabc", "1.0.0"), Err(VersionError::InvalidCandidate));
    assert_eq!(is_version_newer("v1.0", "x.y"), Err(VersionError::InvalidCurrent));
    assert_eq!(is_version_newer("v1.01", "1.0.0"), Err(VersionError::InvalidCandidate));
}

#[test]
fn update_available_compares_release_tag() {
    assert_eq!(is_update_available(&release("v1.5", &[]), "v1.4.9"), Ok(true));
    assert_eq!(is_update_available(&release("v1.4", &[]), "v1.4.9"), Ok(false));
    assert_eq!(
        is_update_available(&release("latest", &[]), "v1.4.9"),
        Err(VersionError::InvalidCandidate)
    );
}

#[test]
fn download_url_is_first_asset_of_newer_release() {
    let r = release("v2", &["https://host/a.exe", "https://host/b.exe"]);
    assert_eq!(update_download_url(&r, Ok(true)), Some("https://host/a.exe".to_string()));
    assert_eq!(update_download_url(&r, Ok(false)), None);
    assert_eq!(update_download_url(&r, Err(VersionError::InvalidCurrent)), None);
    assert_eq!(update_download_url(&release("v2", &[]), Ok(true)), None);
}

#[test]
fn equal_versions_are_not_newer() {
    assert_eq!(is_version_newer("v1.2.3", "v1.2.3"), Ok(false));
    assert_eq!(is_update_available(&release("v1.2", &[]), "1.2.0"), Ok(false));
}

#[test]
fn pre_release_order_decides_on_equal_numbers() {
    assert_eq!(is_version_newer("1.0.0-beta", "1.0.0-alpha"), Ok(true));
    assert_eq!(is_version_newer("1.0.0-alpha", "1.0.0"), Ok(false));
    assert_eq!(is_version_newer("1.0.0", "1.0.0-rc.1"), Ok(true));
}
