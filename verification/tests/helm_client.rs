use multitool::controller::helm_client::{
    installed_release_info,
    normalize_base_url, release_status_url, sidecar_error, sidecar_url, SidecarReleaseInfo,
};
use multitool::controller::traits::{ClientError, HelmReleaseInfo};

#[test]
fn sidecar_release_info_converts_to_helm_release_info() {
    let sidecar = SidecarReleaseInfo {
        name: "my-app-red".to_string(),
        namespace: "default".to_string(),
        version: 1,
        status: "deployed".to_string(),
        chart: "my-app-1.2.3".to_string(),
        app_version: "1.2.3".to_string(),
    };
    let info = HelmReleaseInfo::from(&sidecar);
    assert_eq!(info.release_name, "my-app-red");
    assert_eq!(info.status, "deployed");
    assert_eq!(info.version, "1.2.3");
}

#[test]
fn base_url_trailing_slash_trimmed() {
    assert_eq!(normalize_base_url("http://localhost:8082/"), "http://localhost:8082");
}

#[test]
fn base_url_without_slash_unchanged() {
    assert_eq!(normalize_base_url("http://localhost:8082"), "http://localhost:8082");
    assert_eq!(normalize_base_url("http://h///"), "http://h");
    assert_eq!(normalize_base_url(""), "");
}

#[test]
fn sidecar_urls() {
    assert_eq!(sidecar_url("http://h:1", "/v1/charts/pull"), "http://h:1/v1/charts/pull");
    assert_eq!(
        release_status_url("http://h:1", "my-app-red", "prod"),
        "http://h:1/v1/releases/my-app-red?namespace=prod"
    );
}

#[test]
fn sidecar_error_messages() {
    assert_eq!(
        sidecar_error("install", Some("chart not found".to_string())),
        ClientError::Helm("install failed: chart not found".to_string())
    );
    assert_eq!(
        sidecar_error("uninstall", None),
        ClientError::Helm("uninstall failed: unknown error".to_string())
    );
}

#[test]
fn installed_release_info_uses_pulled_chart_version() {
    let report = SidecarReleaseInfo {
        name: "my-app-red".to_string(),
        namespace: "default".to_string(),
        version: 3,
        status: "deployed".to_string(),
        chart: "my-app-1.2.3".to_string(),
        app_version: "9.9.9".to_string(),
    };
    let info = installed_release_info(&report, "1.2.3".to_string());
    assert_eq!(
        info,
        HelmReleaseInfo {
            release_name: "my-app-red".to_string(),
            version: "1.2.3".to_string(),
            status: "deployed".to_string(),
        }
    );
}
