//! The Helm sidecar: request URLs, error mapping and release information.
use vstd::prelude::*;

use super::traits::{ClientError, HelmReleaseInfo};
use crate::text::{trim_trailing_slashes, trim_trailing_slashes_of};

verus! {

/// Release information as reported by the sidecar.
#[derive(Debug, Clone)]
pub struct SidecarReleaseInfo {
    pub name: String,
    pub namespace: String,
    pub version: i32,
    pub status: String,
    pub chart: String,
    pub app_version: String,
}

impl<'a> From<&'a SidecarReleaseInfo> for HelmReleaseInfo {
    /// The release name, app version and status of the sidecar's report.
    fn from(info: &'a SidecarReleaseInfo) -> (r: Self) {
        HelmReleaseInfo {
            release_name: info.name.clone(),
            version: info.app_version.clone(),
            status: info.status.clone(),
        }
    }
}

impl<'a> vstd::std_specs::convert::FromSpecImpl<&'a SidecarReleaseInfo> for HelmReleaseInfo {
    open spec fn obeys_from_spec() -> bool {
        true
    }

    open spec fn from_spec(info: &'a SidecarReleaseInfo) -> HelmReleaseInfo {
        HelmReleaseInfo { release_name: info.name, version: info.app_version, status: info.status }
    }
}

/// The sidecar base URL without trailing slashes.
pub fn normalize_base_url(base_url: &str) -> (r: String)
    ensures
        r@ == trim_trailing_slashes(base_url@),
{
    trim_trailing_slashes_of(base_url)
}

/// The URL of an endpoint of the sidecar: the base URL followed by `path`.
pub fn sidecar_url(base_url: &str, path: &str) -> (r: String)
    ensures
        r@ == base_url@ + path@,
{
    let mut r = base_url.to_owned();
    r.append(path);
    r
}

/// The URL querying the status of a release in a namespace.
pub fn release_status_url(base_url: &str, release_name: &str, namespace: &str) -> (r: String)
    ensures
        r@ == base_url@ + "/v1/releases/"@ + release_name@ + "?namespace="@ + namespace@,
{
    let mut r = base_url.to_owned();
    r.append("/v1/releases/");
    r.append(release_name);
    r.append("?namespace=");
    r.append(namespace);
    r
}

/// The error for a sidecar operation that failed: the operation, then the
/// sidecar's message or `unknown error` when it sent none.
pub fn sidecar_error(operation: &str, message: Option<String>) -> (r: ClientError)
    ensures
        r matches ClientError::Helm(m) && m@ == operation@ + " failed: "@ + match message {
            Some(msg) => msg@,
            None => "unknown error"@,
        },
{
    let mut m = operation.to_owned();
    m.append(" failed: ");
    match &message {
        Some(msg) => m.append(msg.as_str()),
        None => m.append("unknown error"),
    }
    ClientError::Helm(m)
}

/// The release information of an install: the name and status of the
/// sidecar's report, with the version of the chart that was pulled (the
/// reported app version may differ from it).
pub fn installed_release_info(report: &SidecarReleaseInfo, chart_version: String) -> (r: HelmReleaseInfo)
    ensures
        r.release_name@ == report.name@,
        r.status@ == report.status@,
        r.version@ == chart_version@,
{
    let mut info = HelmReleaseInfo::from(report);
    info.version = chart_version;
    info
}

} // verus!
