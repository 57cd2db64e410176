use vstd::prelude::*;

verus! {

/// Which piece of a manifest's type metadata could not be used.
#[derive(Clone, Copy, Debug, PartialEq, Eq, Structural)]
pub enum TypeField {
    /// The `apiVersion` entry.
    ApiVersion,
    /// The `kind` entry.
    Kind,
}

/// Everything that can go wrong while applying a manifest or timing a pod.
///
/// Each variant carries the context a caller needs to report the failure
/// without repeating the operation.
#[derive(Clone, Debug)]
pub enum Error {
    /// The manifest file could not be read.
    ManifestRead { path: String, reason: String },
    /// The manifest text is not one well-formed mapping document.
    ManifestParse { reason: String },
    /// `apiVersion` or `kind` is absent or malformed.
    MissingTypeMetadata { field: TypeField },
    /// `metadata.name` is absent or is not text.
    MissingName,
    /// The cluster serves no resource for the manifest's type.
    DiscoveryMismatch { group: String, version: String, kind: String },
    /// The server refused the patch.
    ApplyRejected { kind: String, name: String, reason: String },
    /// The pod does not exist.
    PodNotFound { namespace: String, name: String },
    /// The pod carries no status block yet.
    MissingStatus,
    /// The pod has no `PodScheduled` condition to measure from.
    NoBaseline,
    /// No reachable, authenticated cluster context exists.
    ClusterConnection { reason: String },
    /// The caller reported something the current step cannot follow.
    OutOfTurn,
}

impl Error {
    /// Whether the failure ends the invocation. Only an unresolved resource
    /// type is survivable: the caller warns and skips the apply.
    pub fn is_fatal(&self) -> (fatal: bool)
        ensures
            fatal == !(self is DiscoveryMismatch),
    {
        match self {
            Error::DiscoveryMismatch { .. } => false,
            _ => true,
        }
    }
}

} // verus!
