//! Command synthesis and package-metadata resolution for deploying
//! registry-hosted Kubernetes packages.

pub mod apply;
pub mod auth;
pub mod error;
pub mod package;
pub mod resources;
pub mod script;
