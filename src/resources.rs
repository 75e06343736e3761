//! The application instance descriptor.
use vstd::prelude::*;

verus! {

/// A deployable application: where it goes and which package it comes from.
#[derive(Debug, Clone)]
pub struct AppInstance {
    /// `metadata.namespace`; the default namespace where absent.
    pub namespace: Option<String>,
    /// `metadata.name`.
    pub name: Option<String>,
    /// `spec.package.image`: an OCI reference `registry/repo[:tag|@digest]`.
    pub image: String,
}

/// The namespace used where the descriptor names none.
pub const DEFAULT_NAMESPACE: &'static str = "default";

/// The namespace that the instance is applied to.
pub open spec fn namespace_of(app: AppInstance) -> Seq<char> {
    match app.namespace {
        Some(ns) => ns@,
        None => DEFAULT_NAMESPACE@,
    }
}

/// The name of the instance, empty where the descriptor names none.
pub open spec fn name_of(app: AppInstance) -> Seq<char> {
    match app.name {
        Some(n) => n@,
        None => Seq::empty(),
    }
}

impl AppInstance {
    /// The namespace of the instance, falling back to the default namespace.
    pub fn namespace_any(&self) -> (r: String)
        ensures
            r@ == namespace_of(*self),
    {
        match &self.namespace {
            Some(ns) => ns.clone(),
            None => String::from_str(DEFAULT_NAMESPACE),
        }
    }

    /// The name of the instance, empty where it has none.
    pub fn name_any(&self) -> (r: String)
        ensures
            r@ == name_of(*self),
    {
        match &self.name {
            Some(n) => n.clone(),
            None => String::new(),
        }
    }
}

} // verus!
