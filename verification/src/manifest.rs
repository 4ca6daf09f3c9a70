use vstd::prelude::*;

verus! {

/// The manifest's `version` field as interpretation sees it: an
/// integer, or anything else (absent or of another type).
#[derive(Clone, Copy, Debug, PartialEq, Eq, Structural)]
pub enum VersionField {
    Int(i64),
    Other,
}

/// A service declaration inside an environment. Its presence is the
/// sole gate for whether the environment produces a unit file; its
/// fields are currently descriptive only.
pub struct Service {
    pub status: String,
    pub after: Option<String>,
    pub exec_start_pre: Option<String>,
    pub exec_start: Option<String>,
}

/// One environment of the manifest.
pub struct EnvConfig {
    pub channels: Vec<String>,
    pub dependencies: Vec<(String, String)>,
    pub exposed: Option<Vec<(String, String)>>,
    pub service: Option<Service>,
}

/// The manifest: a version field and a mapping of unique environment
/// names to environment configurations. The entry order carries no
/// meaning.
pub struct Manifest {
    pub version: VersionField,
    pub envs: Vec<(String, EnvConfig)>,
}

/// Verdict of the version policy. Every verdict lets synthesis
/// proceed: the version gate is advisory, never fatal.
#[derive(Clone, Copy, Debug, PartialEq, Eq, Structural)]
pub enum VersionVerdict {
    /// Version absent or not an integer: warn and proceed as if it
    /// were 1.
    AssumedOne,
    /// Version 1: proceed silently.
    Supported,
    /// Any other integer: log an error, but still proceed.
    UnsupportedProceed,
}

/// The version policy.
pub open spec fn spec_version_verdict(v: VersionField) -> VersionVerdict {
    match v {
        VersionField::Int(n) => if n == 1 {
            VersionVerdict::Supported
        } else {
            VersionVerdict::UnsupportedProceed
        },
        VersionField::Other => VersionVerdict::AssumedOne,
    }
}

/// Applies the version policy to a manifest's version field.
pub fn version_verdict(v: &VersionField) -> (r: VersionVerdict)
    ensures
        r == spec_version_verdict(*v),
{
    match v {
        VersionField::Int(n) => {
            if *n == 1 {
                VersionVerdict::Supported
            } else {
                VersionVerdict::UnsupportedProceed
            }
        },
        VersionField::Other => VersionVerdict::AssumedOne,
    }
}

} // verus!
