use harper_zed::error::InstallError;

#[test]
fn message_unsupported_architecture() {
    assert_eq!(InstallError::UnsupportedArchitecture.message(), "x86 architecture is not supported");
}

#[test]
fn message_release_fetch_failed() {
    assert_eq!(
        InstallError::ReleaseFetchFailed("timed out".to_string()).message(),
        "Failed to fetch latest release: timed out"
    );
}

#[test]
fn message_no_matching_asset() {
    assert_eq!(
        InstallError::NoMatchingAsset("x86_64-unknown-linux-gnu".to_string()).message(),
        "No compatible Harper binary found for x86_64-unknown-linux-gnu"
    );
}

#[test]
fn message_download_failed() {
    assert_eq!(
        InstallError::DownloadFailed("404".to_string()).message(),
        "Failed to download Harper binary: 404"
    );
}

#[test]
fn message_permission_failed() {
    assert_eq!(
        InstallError::PermissionFailed("read-only".to_string()).message(),
        "Failed to make binary executable: read-only"
    );
}

#[test]
fn message_with_empty_cause() {
    assert_eq!(
        InstallError::DownloadFailed(String::new()).message(),
        "Failed to download Harper binary: "
    );
}
