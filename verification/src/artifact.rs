//! Runtime artifacts produced by runners.
use vstd::prelude::*;

verus! {

#[derive(Debug, Clone, Copy, PartialEq, Eq, Structural)]
pub enum ArtifactKind {
    Local,
    Docker,
    LambdaZip,
    Wasmer,
}

/// What a runner produced, with the paths and settings a later run or
/// deploy needs.
#[derive(Debug, Clone, PartialEq, Eq)]
pub enum RuntimeArtifact {
    Local { directory: String },
    Docker { directory: String, image: String, context: String, platform: Option<String> },
    LambdaZip {
        archive: String,
        runtime: String,
        handler: String,
        environment: Vec<(String, String)>,
        platform: Option<String>,
    },
    Wasmer { directory: String },
}

pub open spec fn artifact_kind(a: RuntimeArtifact) -> ArtifactKind {
    match a {
        RuntimeArtifact::Local { .. } => ArtifactKind::Local,
        RuntimeArtifact::Docker { .. } => ArtifactKind::Docker,
        RuntimeArtifact::LambdaZip { .. } => ArtifactKind::LambdaZip,
        RuntimeArtifact::Wasmer { .. } => ArtifactKind::Wasmer,
    }
}

impl RuntimeArtifact {
    pub fn kind(&self) -> (r: ArtifactKind)
        ensures
            r == artifact_kind(*self),
    {
        match self {
            RuntimeArtifact::Local { .. } => ArtifactKind::Local,
            RuntimeArtifact::Docker { .. } => ArtifactKind::Docker,
            RuntimeArtifact::LambdaZip { .. } => ArtifactKind::LambdaZip,
            RuntimeArtifact::Wasmer { .. } => ArtifactKind::Wasmer,
        }
    }

    /// The directory a Wasmer artifact was written to.
    pub fn wasmer_directory(&self) -> (r: Option<&str>)
        ensures
            match *self {
                RuntimeArtifact::Wasmer { directory } => (r matches Some(d) && d@ == directory@),
                _ => r is None,
            },
    {
        match self {
            RuntimeArtifact::Wasmer { directory } => Some(directory.as_str()),
            _ => None,
        }
    }

    /// The directory, image and build context of a Docker artifact.
    pub fn docker_parts(&self) -> (r: Option<(&str, &str, &str)>)
        ensures
            match *self {
                RuntimeArtifact::Docker { directory, image, context, .. } => (r matches Some(
                    t,
                ) && t.0@ == directory@ && t.1@ == image@ && t.2@ == context@),
                _ => r is None,
            },
    {
        match self {
            RuntimeArtifact::Docker { directory, image, context, .. } => Some(
                (directory.as_str(), image.as_str(), context.as_str()),
            ),
            _ => None,
        }
    }

    /// The target platform of a Docker or Lambda artifact, where recorded.
    pub fn platform(&self) -> (r: Option<&str>)
        ensures
            match *self {
                RuntimeArtifact::Docker { platform, .. } => match platform {
                    Some(p) => (r matches Some(q) && q@ == p@),
                    None => r is None,
                },
                RuntimeArtifact::LambdaZip { platform, .. } => match platform {
                    Some(p) => (r matches Some(q) && q@ == p@),
                    None => r is None,
                },
                _ => r is None,
            },
    {
        match self {
            RuntimeArtifact::Docker { platform, .. } => match platform {
                Some(p) => Some(p.as_str()),
                None => None,
            },
            RuntimeArtifact::LambdaZip { platform, .. } => match platform {
                Some(p) => Some(p.as_str()),
                None => None,
            },
            _ => None,
        }
    }

    /// The artifact itself when it is a Lambda zip.
    pub fn lambda_zip(&self) -> (r: Option<&Self>)
        ensures
            (*self is LambdaZip) ==> r == Some(self),
            !(*self is LambdaZip) ==> r is None,
    {
        match self {
            RuntimeArtifact::LambdaZip { .. } => Some(self),
            _ => None,
        }
    }
}

} // verus!
