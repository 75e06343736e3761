//! The package configuration pulled from the registry, and the metadata
//! operations that read it.
use vstd::prelude::*;

use crate::error::Error;
use crate::script::token_views;

verus! {

/// The configuration artifact of a package: its JSON Schema and the images it
/// references, in the artifact's order. Either part may be absent.
#[derive(Debug, Clone)]
pub struct PackageConfig {
    /// The JSON Schema of the package `spec`, as text.
    pub schema: Option<String>,
    /// The image references of the package.
    pub images: Option<Vec<String>>,
}

/// What `PackageConfig::schema` gives.
pub open spec fn schema_outcome(config: PackageConfig) -> Result<Seq<char>, Error> {
    match config.schema {
        Some(s) => Ok(s@),
        None => Err(Error::SchemaMissing),
    }
}

/// What `PackageConfig::images` gives.
pub open spec fn images_outcome(config: PackageConfig) -> Result<Seq<Seq<char>>, Error> {
    match config.images {
        Some(v) => Ok(token_views(v@)),
        None => Err(Error::ImagesMissing),
    }
}

fn copy_strings(v: &Vec<String>) -> (r: Vec<String>)
    ensures
        token_views(r@) == token_views(v@),
{
    let mut out: Vec<String> = Vec::new();
    let mut i: usize = 0;
    while i < v.len()
        invariant
            i <= v@.len(),
            token_views(out@) == token_views(v@).take(i as int),
        decreases v@.len() - i,
    {
        let item: &String = &v[i];
        let copy = item.clone();
        assert(copy@ == v@[i as int]@);
        out.push(copy);
        assert(token_views(v@).take(i + 1) =~= token_views(v@).take(i as int).push(v@[i as int]@));
        i = i + 1;
        assert(token_views(out@) =~= token_views(v@).take(i as int));
    }
    assert(token_views(v@).take(v@.len() as int) =~= token_views(v@));
    out
}

impl PackageConfig {
    /// The embedded JSON Schema; fails with `SchemaMissing` where there is
    /// none, whatever the image list holds.
    pub fn schema(&self) -> (r: Result<String, Error>)
        ensures
            match r {
                Ok(s) => schema_outcome(*self) == Ok::<Seq<char>, Error>(s@),
                Err(e) => schema_outcome(*self) == Err::<Seq<char>, Error>(e),
            },
    {
        match &self.schema {
            Some(s) => Ok(s.clone()),
            None => Err(Error::SchemaMissing),
        }
    }

    /// The referenced images in the artifact's order; fails with
    /// `ImagesMissing` where there is no image list, whatever the schema holds.
    pub fn images(&self) -> (r: Result<Vec<String>, Error>)
        ensures
            match r {
                Ok(v) => images_outcome(*self) == Ok::<Seq<Seq<char>>, Error>(token_views(v@)),
                Err(e) => images_outcome(*self) == Err::<Seq<Seq<char>>, Error>(e),
            },
    {
        match &self.images {
            Some(v) => Ok(copy_strings(v)),
            None => Err(Error::ImagesMissing),
        }
    }
}

/// The two accessors fail independently: a configuration with a schema but no
/// image list gives its schema and `ImagesMissing`, and one with an image list
/// but no schema gives its images and `SchemaMissing`.
pub proof fn lemma_independent_accessors(config: PackageConfig)
    ensures
        config.schema is Some ==> schema_outcome(config) is Ok,
        config.images is None ==> images_outcome(config) == Err::<Seq<Seq<char>>, Error>(
            Error::ImagesMissing,
        ),
        config.images is Some ==> images_outcome(config) is Ok,
        config.schema is None ==> schema_outcome(config) == Err::<Seq<char>, Error>(
            Error::SchemaMissing,
        ),
{
}

/// The metadata operations on a package: each names a file that holds the
/// application instance, and whether the registry may be accessed anonymously.
#[derive(Debug, Clone)]
pub enum Metadata {
    /// Retrieve the JSON schema for the package `spec`.
    Schema { app_instance: String, allow_anonymous: bool },
    /// Retrieve the list of OCI images referenced by the package.
    Images { app_instance: String, allow_anonymous: bool },
}

/// The lines that an operation prints for a configuration: the schema text, or
/// one image reference per line in the artifact's order; an error where the
/// part it reads is missing, and then nothing is printed.
pub open spec fn output_of(op: Metadata, config: PackageConfig) -> Result<Seq<Seq<char>>, Error> {
    match op {
        Metadata::Schema { .. } => match schema_outcome(config) {
            Ok(s) => Ok(seq![s]),
            Err(e) => Err(e),
        },
        Metadata::Images { .. } => images_outcome(config),
    }
}

impl Metadata {
    /// The path of the application instance file.
    pub fn app_instance(&self) -> (r: &String)
        ensures
            match self {
                Metadata::Schema { app_instance, .. } => r == app_instance,
                Metadata::Images { app_instance, .. } => r == app_instance,
            },
    {
        match self {
            Metadata::Schema { app_instance, .. } => app_instance,
            Metadata::Images { app_instance, .. } => app_instance,
        }
    }

    /// Whether the registry may be accessed anonymously.
    pub fn allow_anonymous(&self) -> (r: bool)
        ensures
            match self {
                Metadata::Schema { allow_anonymous, .. } => r == *allow_anonymous,
                Metadata::Images { allow_anonymous, .. } => r == *allow_anonymous,
            },
    {
        match self {
            Metadata::Schema { allow_anonymous, .. } => *allow_anonymous,
            Metadata::Images { allow_anonymous, .. } => *allow_anonymous,
        }
    }

    /// The lines to print for this operation on a fetched configuration.
    pub fn output_lines(&self, config: &PackageConfig) -> (r: Result<Vec<String>, Error>)
        ensures
            match r {
                Ok(v) => output_of(*self, *config) == Ok::<Seq<Seq<char>>, Error>(token_views(v@)),
                Err(e) => output_of(*self, *config) == Err::<Seq<Seq<char>>, Error>(e),
            },
    {
        match self {
            Metadata::Schema { .. } => {
                let schema = config.schema()?;
                let mut lines: Vec<String> = Vec::new();
                lines.push(schema);
                assert(token_views(lines@) =~= seq![lines@[0]@]);
                Ok(lines)
            },
            Metadata::Images { .. } => config.images(),
        }
    }
}

} // verus!
