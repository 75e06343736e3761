//! Registry credentials and the authentication context of a pull.
use vstd::prelude::*;

use crate::error::Error;
use crate::resources::AppInstance;
use docker_credential::{CredentialRetrievalError, DockerCredential};
use oci_distribution::{ParseError, Reference};

verus! {

#[verifier::external_type_specification]
#[verifier::external_body]
pub struct ExCredentialRetrievalError(CredentialRetrievalError);

#[verifier::external_type_specification]
#[verifier::external_body]
pub struct ExParseError(ParseError);

/// How a registry is accessed.
#[derive(Debug, Clone, PartialEq, Eq)]
pub enum AuthContext {
    Anonymous,
    Basic(String, String),
}

/// A credential as the local credential store holds it.
#[derive(Debug, Clone, PartialEq, Eq)]
pub enum StoredCredential {
    UsernamePassword(String, String),
    IdentityToken(String),
}

/// The registry host of an image reference as the OCI reference grammar reads
/// it, or `None` where the text is not a valid reference.
pub uninterp spec fn registry_of(image: Seq<char>) -> Option<Seq<char>>;

/// Relies on `oci_distribution::Reference`'s `FromStr` to parse the reference,
/// and on `Reference::registry` for its host; parsing depends on the text alone.
#[verifier::external_body]
fn parse_registry(image: &str) -> (r: Result<String, ParseError>)
    ensures
        r is Ok <==> registry_of(image@) is Some,
        r matches Ok(host) ==> registry_of(image@) == Some(host@),
{
    match image.parse::<Reference>() {
        Ok(reference) => Ok(reference.registry().to_string()),
        Err(e) => Err(e),
    }
}

/// Relies on `docker_credential::get_credential`, which reads the local Docker
/// configuration and its credential helpers; what it returns depends on them.
#[verifier::external_body]
fn lookup_credential(host: &str) -> (r: Result<StoredCredential, CredentialRetrievalError>) {
    match docker_credential::get_credential(host) {
        Ok(DockerCredential::UsernamePassword(u, p)) => Ok(StoredCredential::UsernamePassword(u, p)),
        Ok(DockerCredential::IdentityToken(t)) => Ok(StoredCredential::IdentityToken(t)),
        Err(e) => Err(e),
    }
}

/// The authentication context that a stored credential gives: a user name and
/// password give basic authentication, any other kind is refused.
pub open spec fn auth_of_credential(cred: StoredCredential) -> Result<AuthContext, Error> {
    match cred {
        StoredCredential::UsernamePassword(u, p) => Ok(AuthContext::Basic(u, p)),
        StoredCredential::IdentityToken(_) => Err(Error::UnsupportedCredentialKind),
    }
}

/// Turns a stored credential into an authentication context.
pub fn credential_auth(cred: StoredCredential) -> (r: Result<AuthContext, Error>)
    ensures
        r == auth_of_credential(cred),
{
    match cred {
        StoredCredential::UsernamePassword(u, p) => Ok(AuthContext::Basic(u, p)),
        StoredCredential::IdentityToken(_) => Err(Error::UnsupportedCredentialKind),
    }
}

/// The authentication context for `host`. Where anonymous access is allowed
/// the credential store is not consulted and the context is anonymous;
/// otherwise the stored credential decides, and a failed lookup is an error.
pub fn resolve_auth(host: &str, allow_anonymous: bool) -> (r: Result<AuthContext, Error>)
    ensures
        allow_anonymous ==> r == Ok::<AuthContext, Error>(AuthContext::Anonymous),
        !allow_anonymous ==> match r {
            Ok(auth) => auth is Basic,
            Err(e) => e == Error::CredentialLookupError || e == Error::UnsupportedCredentialKind,
        },
{
    if allow_anonymous {
        return Ok(AuthContext::Anonymous);
    }
    match lookup_credential(host) {
        Ok(cred) => credential_auth(cred),
        Err(_) => Err(Error::CredentialLookupError),
    }
}

/// The registry host of the package image of `app_instance`.
pub fn registry_host(app_instance: &AppInstance) -> (r: Result<String, Error>)
    ensures
        match r {
            Ok(host) => registry_of(app_instance.image@) == Some(host@),
            Err(e) => registry_of(app_instance.image@) is None && e == Error::InvalidImageReference,
        },
{
    match parse_registry(app_instance.image.as_str()) {
        Ok(host) => Ok(host),
        Err(_) => Err(Error::InvalidImageReference),
    }
}

/// The authentication context for pulling the package of `app_instance` with
/// the credentials stored for its registry.
pub fn local_auth(app_instance: &AppInstance, allow_anonymous: bool) -> (r: Result<
    AuthContext,
    Error,
>)
    ensures
        registry_of(app_instance.image@) is None ==> r == Err::<AuthContext, Error>(
            Error::InvalidImageReference,
        ),
        registry_of(app_instance.image@) is Some && allow_anonymous ==> r == Ok::<
            AuthContext,
            Error,
        >(AuthContext::Anonymous),
        registry_of(app_instance.image@) is Some && !allow_anonymous ==> match r {
            Ok(auth) => auth is Basic,
            Err(e) => e == Error::CredentialLookupError || e == Error::UnsupportedCredentialKind,
        },
{
    let host = registry_host(app_instance)?;
    resolve_auth(host.as_str(), allow_anonymous)
}

} // verus!
