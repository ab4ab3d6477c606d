//! The error taxonomy of the setup pipeline.
//!
//! Every error is terminal for the invocation that raised it: the pipeline
//! performs no retry and no partial-success continuation.

use vstd::prelude::*;

verus! {

/// Everything that can go wrong while acquiring the framework and editing
/// the manifests.
#[derive(Clone, Copy, Debug, PartialEq, Eq, Structural)]
pub enum SetupError {
    /// No manifest file exists in the given directory.
    MissingManifest,
    /// The manifest parses, but describes neither a package nor a library.
    NotAPackageManifest,
    /// The manifest text is not well-formed TOML.
    ManifestParseError,
    /// A dependency entry exists, but neither a bare scalar nor a `version`
    /// sub-key yields a version string.
    VersionFieldUnparseable,
    /// An existing value at a target key has a shape incompatible with the
    /// requested edit.
    StructuralConflict,
    /// The remote explicitly reported that the resource does not exist.
    ResourceNotFound,
    /// Any other network or protocol failure, including a timeout.
    TransferFailure,
    /// The downloaded byte stream is not a valid archive.
    ArchiveCorrupt,
    /// No extracted sibling directory matches the framework name fragment.
    FrameworkDirectoryNotFound,
    /// The discovered directory could not be moved to its final place.
    RelocationFailure,
    /// The mutated manifest could not be written back to disk.
    WriteFailure,
}

impl SetupError {
    /// A human-readable description, for the layer that renders status.
    pub fn message(&self) -> &'static str {
        match self {
            SetupError::MissingManifest => "no manifest file found in the project directory",
            SetupError::NotAPackageManifest => "the manifest does not describe a single package",
            SetupError::ManifestParseError => "the manifest is not well-formed TOML",
            SetupError::VersionFieldUnparseable => "the dependency entry has no readable version",
            SetupError::StructuralConflict => "an existing value is incompatible with the edit",
            SetupError::ResourceNotFound => "the remote reports that the archive does not exist",
            SetupError::TransferFailure => "the archive transfer failed",
            SetupError::ArchiveCorrupt => "the downloaded stream is not a valid archive",
            SetupError::FrameworkDirectoryNotFound => "no extracted directory matches the framework name",
            SetupError::RelocationFailure => "the framework directory could not be moved into place",
            SetupError::WriteFailure => "the manifest could not be written back",
        }
    }
}

} // verus!
