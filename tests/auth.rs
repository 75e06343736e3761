use kubit_core::auth::{credential_auth, local_auth, registry_host, resolve_auth, AuthContext, StoredCredential};
use kubit_core::error::Error;
use kubit_core::resources::AppInstance;

fn app(image: &str) -> AppInstance {
    AppInstance { namespace: None, name: Some("a".to_string()), image: image.to_string() }
}

#[test]
fn username_password_gives_basic() {
    let c = StoredCredential::UsernamePassword("u".to_string(), "p".to_string());
    assert_eq!(credential_auth(c), Ok(AuthContext::Basic("u".to_string(), "p".to_string())));
}

#[test]
fn identity_token_is_refused() {
    let c = StoredCredential::IdentityToken("tok".to_string());
    assert_eq!(credential_auth(c), Err(Error::UnsupportedCredentialKind));
}

#[test]
fn anonymous_skips_lookup() {
    assert_eq!(resolve_auth("no-such-registry.invalid", true), Ok(AuthContext::Anonymous));
}

#[test]
fn registry_host_of_explicit_registry() {
    assert_eq!(registry_host(&app("registry.example.com/pkg:1.0")), Ok("registry.example.com".to_string()));
}

#[test]
fn registry_host_defaults_to_docker_hub() {
    assert_eq!(registry_host(&app("nginx")), Ok("docker.io".to_string()));
}

#[test]
fn invalid_reference_is_refused() {
    assert_eq!(registry_host(&app("")), Err(Error::InvalidImageReference));
    assert_eq!(local_auth(&app("Not A Reference"), true), Err(Error::InvalidImageReference));
}

#[test]
fn anonymous_local_auth() {
    assert_eq!(local_auth(&app("registry.example.com/pkg:1.0"), true), Ok(AuthContext::Anonymous));
}

#[test]
fn unknown_registry_lookup_fails() {
    assert_eq!(resolve_auth("unconfigured-registry.invalid", false), Err(Error::CredentialLookupError));
}
