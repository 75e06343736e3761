//! The failures that the library reports.
use vstd::prelude::*;

verus! {

/// Why an operation could not be completed. Each one is fatal for the
/// operation that met it.
#[derive(Debug, Clone, Copy, PartialEq, Eq, Structural)]
pub enum Error {
    /// The package image is not a valid registry reference.
    InvalidImageReference,
    /// The credential store holds a credential other than a user name and a
    /// password (an identity token) for the registry.
    UnsupportedCredentialKind,
    /// The credential store could not be read or knows no credential for the
    /// registry.
    CredentialLookupError,
    /// The registry pull failed.
    RegistryPullError,
    /// The pulled configuration could not be parsed.
    MalformedPackageConfig,
    /// The package configuration holds no schema.
    SchemaMissing,
    /// The package configuration holds a schema that cannot be read.
    SchemaParseError,
    /// The package configuration holds no image list.
    ImagesMissing,
    /// No kubeconfig override is set and no home directory is known.
    HomeDirectoryUnresolved,
}

} // verus!
