//! Reconciliation core of a controller that deploys OCI-packaged application
//! bundles ("AppInstances") into a cluster: credential and artifact
//! resolution, the apply engine, the deletion lifecycle and the error
//! taxonomy with its retry policy.
use vstd::prelude::*;

pub mod apply;
pub mod artifact;
pub mod controller;
pub mod credentials;
pub mod delete;
pub mod local;
pub mod render;

use crate::local::DryRun;

verus! {

/// A failure reported by the cluster API, reduced to what the controller
/// acts on: whether it came from API discovery (usually missing CRDs), and
/// the message for diagnostics.
#[derive(Debug)]
pub struct ApiFailure {
    pub discovery: bool,
    pub message: String,
}

/// The controller's error taxonomy. Every variant that wraps a cause keeps
/// that cause's description.
#[derive(Debug)]
pub enum Error {
    KubeError(ApiFailure),
    OCI(String),
    OCIParseError(String),
    UnsupportedManifestIndex,
    UnsupportedDryRunOption(DryRun),
    DecodePackageConfig(String),
    DecodeKubecfgPackageMetadata(String),
    RenderOverlay(String),
    IOError(String),
    TempfilePersistError(String),
    NamespaceRequired,
    ConfigMapRequired,
    UnsupportedMultipleImagePullSecrets,
    NoDockerConfigJsonInImagePullSecret,
    DecodeDockerConfig(String),
    BadImagePullSecretType(Option<String>),
    /// A failure inside the finalizer lifecycle; boxed because the finalizer
    /// failure itself may embed an `Error`.
    FinalizerError(Box<FinalizerFailure>),
    ResourceDeletionTimeout,
    InvalidConfigMapStatus(String),
    InvalidConfigMap(String),
}

/// What can go wrong while the finalizer wrapper runs the reconciler.
#[derive(Debug)]
pub enum FinalizerFailure {
    /// The apply path of the reconciler failed.
    ApplyFailed(Error),
    /// The cleanup path of the reconciler failed.
    CleanupFailed(Error),
    /// Adding the finalizer to the object failed.
    AddFinalizer(ApiFailure),
    /// Removing the finalizer from the object failed.
    RemoveFinalizer(ApiFailure),
    /// The object has no name.
    UnnamedObject,
    /// The finalizer name is not valid.
    InvalidFinalizer,
}

/// How the surrounding driver should treat a failed reconcile.
#[derive(PartialEq, Eq, Structural, Clone, Copy, Debug)]
pub enum Retry {
    /// A transient fault: requeue with backoff.
    Backoff,
    /// A configuration or input fault: surface it; retrying changes nothing.
    Permanent,
}

pub type Result<T, E = Error> = core::result::Result<T, E>;

/// The retry policy of each kind of error.
pub open spec fn spec_retry(e: Error) -> Retry
    decreases e,
{
    match e {
        Error::KubeError(_) => Retry::Backoff,
        Error::OCI(_) => Retry::Backoff,
        Error::IOError(_) => Retry::Backoff,
        Error::TempfilePersistError(_) => Retry::Backoff,
        Error::ResourceDeletionTimeout => Retry::Backoff,
        Error::FinalizerError(f) => match *f {
            FinalizerFailure::ApplyFailed(inner) => spec_retry(inner),
            FinalizerFailure::CleanupFailed(inner) => spec_retry(inner),
            FinalizerFailure::AddFinalizer(_) => Retry::Backoff,
            FinalizerFailure::RemoveFinalizer(_) => Retry::Backoff,
            FinalizerFailure::UnnamedObject => Retry::Permanent,
            FinalizerFailure::InvalidFinalizer => Retry::Permanent,
        },
        _ => Retry::Permanent,
    }
}

impl Error {
    /// Wraps a cluster API failure.
    pub fn from_api(e: ApiFailure) -> (r: Error)
        ensures
            r == Error::KubeError(e),
    {
        Error::KubeError(e)
    }

    /// Whether the driver should retry this error with backoff, or surface
    /// it as permanent. A finalizer failure that embeds a reconcile error
    /// takes that error's policy.
    pub fn retry(&self) -> (r: Retry)
        ensures
            r == spec_retry(*self),
        decreases *self,
    {
        match self {
            Error::KubeError(_) => Retry::Backoff,
            Error::OCI(_) => Retry::Backoff,
            Error::IOError(_) => Retry::Backoff,
            Error::TempfilePersistError(_) => Retry::Backoff,
            Error::ResourceDeletionTimeout => Retry::Backoff,
            Error::FinalizerError(f) => match &**f {
                FinalizerFailure::ApplyFailed(inner) => inner.retry(),
                FinalizerFailure::CleanupFailed(inner) => inner.retry(),
                FinalizerFailure::AddFinalizer(_) => Retry::Backoff,
                FinalizerFailure::RemoveFinalizer(_) => Retry::Backoff,
                FinalizerFailure::UnnamedObject => Retry::Permanent,
                FinalizerFailure::InvalidFinalizer => Retry::Permanent,
            },
            _ => Retry::Permanent,
        }
    }
}

} // verus!
