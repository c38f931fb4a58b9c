//! OTel resource attribute naming the deployment role of a slot.
use vstd::prelude::*;

verus! {

/// The deployment role assigned to a slot in the canary process.
#[derive(Debug, Clone, Copy, PartialEq, Eq, Structural)]
pub enum DeploymentRole {
    Canary,
    Baseline,
}

impl DeploymentRole {
    /// The string value of a role in the OTel resource attribute.
    pub open spec fn spec_as_str(self) -> Seq<char> {
        match self {
            DeploymentRole::Canary => "canary"@,
            DeploymentRole::Baseline => "baseline"@,
        }
    }

    /// Returns the string value used in the OTel resource attribute.
    pub fn as_str(&self) -> (r: &'static str)
        ensures
            r@ == self.spec_as_str(),
    {
        match self {
            DeploymentRole::Canary => "canary",
            DeploymentRole::Baseline => "baseline",
        }
    }
}

/// The values path where the OTel env var is injected.
pub const OTEL_VALUES_PATH: &'static str = "extraEnv";

/// The OTel resource attribute key for deployment role.
pub const OTEL_ATTR_KEY: &'static str = "multitool.io/deployment.role";

/// The environment variable name.
pub const OTEL_ENV_VAR: &'static str = "OTEL_RESOURCE_ATTRIBUTES";

/// Formats the OTel resource attribute value for a given deployment role.
pub fn otel_resource_attr_value(role: DeploymentRole) -> (r: String)
    ensures
        r@ == "multitool.io/deployment.role"@ + "="@ + role.spec_as_str(),
{
    let mut r = OTEL_ATTR_KEY.to_owned();
    r.append("=");
    r.append(role.as_str());
    r
}

/// One environment variable of a Helm values overlay: the values path that
/// holds the list of variables, the variable's name and its value.
#[derive(Debug, Clone, PartialEq, Eq)]
pub struct OverlayEnvEntry {
    pub values_path: &'static str,
    pub name: &'static str,
    pub value: String,
}

/// The single entry of the values overlay that labels a deployment's
/// telemetry with its role: `OTEL_RESOURCE_ATTRIBUTES` under `extraEnv`, set
/// to the role's resource attribute.
pub fn otel_overlay_entry(role: DeploymentRole) -> (r: OverlayEnvEntry)
    ensures
        r.values_path@ == "extraEnv"@,
        r.name@ == "OTEL_RESOURCE_ATTRIBUTES"@,
        r.value@ == "multitool.io/deployment.role"@ + "="@ + role.spec_as_str(),
{
    OverlayEnvEntry { values_path: OTEL_VALUES_PATH, name: OTEL_ENV_VAR, value: otel_resource_attr_value(role) }
}

} // verus!
