//! The build pipeline: a loaded manifest is validated and frozen, then the
//! produced artifacts are attached.
use vstd::prelude::*;
use crate::config::{config_message, freeze, freeze_error, frozen_view, ConfigError, FrozenConfig, Manifest};

verus! {

/// The result of a build: either nothing publishable yet, or a frozen
/// config together with the artifacts produced from it.
pub enum BuildContext {
    Unbuilt,
    Built { config: FrozenConfig, artifacts: Vec<String> },
}

pub enum BuildError {
    /// No manifest was found at the named package path.
    NoManifest(String),
    /// The manifest could not be frozen.
    Config(ConfigError),
    /// Artifact production failed, for the given reason.
    Artifact(String),
}

impl BuildContext {
    /// A context that holds no frozen config.
    pub fn unbuilt() -> (r: BuildContext)
        ensures
            r is Unbuilt,
    {
        BuildContext::Unbuilt
    }

    pub fn is_built(&self) -> (r: bool)
        ensures
            r == (self is Built),
    {
        match self {
            BuildContext::Unbuilt => false,
            BuildContext::Built { .. } => true,
        }
    }

    /// The frozen config, present exactly when the build succeeded.
    pub fn frozen_config(&self) -> (r: Option<&FrozenConfig>)
        ensures
            match self {
                BuildContext::Unbuilt => r is None,
                BuildContext::Built { config, .. } => r == Some(config),
            },
    {
        match self {
            BuildContext::Unbuilt => None,
            BuildContext::Built { config, .. } => Some(config),
        }
    }
}

/// Validates and freezes the manifest loaded from `package_path` (`None`
/// when no manifest was found there). On success the context holds the
/// snapshot and no artifacts yet; on failure there is no context.
pub fn build(package_path: &str, manifest: Option<&Manifest>) -> (r: Result<
    BuildContext,
    BuildError,
>)
    ensures
        match manifest {
            None => r matches Err(BuildError::NoManifest(p)) && p@ == package_path@,
            Some(m) => match freeze_error(*m) {
                Some(e) => r matches Err(BuildError::Config(c)) && c == e,
                None => r matches Ok(BuildContext::Built { config, artifacts }) && config@
                    == frozen_view(*m) && artifacts@.len() == 0,
            },
        },
{
    let m = match manifest {
        None => return Err(BuildError::NoManifest(String::from_str(package_path))),
        Some(m) => m,
    };
    match freeze(m) {
        Err(e) => Err(BuildError::Config(e)),
        Ok(config) => Ok(BuildContext::Built { config, artifacts: Vec::new() }),
    }
}

/// Attaches the outcome of artifact production to a frozen build: the
/// produced artifacts on success, `BuildError::Artifact` with the reason
/// on failure, in which case no context remains. A context that was never
/// built stays unbuilt.
pub fn attach_artifacts(ctx: BuildContext, produced: Result<Vec<String>, String>) -> (r: Result<
    BuildContext,
    BuildError,
>)
    ensures
        match produced {
            Ok(list) => match ctx {
                BuildContext::Built { config, .. } => r matches Ok(
                    BuildContext::Built { config: c, artifacts },
                ) && c == config && artifacts == list,
                BuildContext::Unbuilt => r matches Ok(BuildContext::Unbuilt),
            },
            Err(reason) => r matches Err(BuildError::Artifact(why)) && why == reason,
        },
{
    match produced {
        Err(reason) => Err(BuildError::Artifact(reason)),
        Ok(list) => match ctx {
            BuildContext::Built { config, .. } => Ok(
                BuildContext::Built { config, artifacts: list },
            ),
            BuildContext::Unbuilt => Ok(BuildContext::Unbuilt),
        },
    }
}

/// The text that describes a build failure and names its path or reason.
pub open spec fn build_message(e: BuildError) -> Seq<char> {
    match e {
        BuildError::NoManifest(p) => "no package manifest found at: "@ + p@,
        BuildError::Config(c) => config_message(c),
        BuildError::Artifact(why) => "artifact production failed: "@ + why@,
    }
}

impl BuildError {
    /// A human-readable description that names the path or the reason.
    pub fn message(&self) -> (r: String)
        ensures
            r@ == build_message(*self),
    {
        match self {
            BuildError::NoManifest(p) => String::from_str("no package manifest found at: ").concat(
                p.as_str(),
            ),
            BuildError::Config(e) => e.message(),
            BuildError::Artifact(why) => String::from_str("artifact production failed: ").concat(
                why.as_str(),
            ),
        }
    }
}

} // verus!
