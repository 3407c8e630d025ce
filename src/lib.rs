//! Core logic of a content-addressed OCI artifact registry: digest and
//! pattern utilities, the authorization predicate, the user store, manifest
//! validation, tag pagination, garbage-collection selection and the
//! decisions of the blob and manifest endpoints.
pub mod text;
pub mod pattern;
pub mod state;
pub mod permissions;
pub mod users;
pub mod digest;
pub mod storage;
pub mod tags;
pub mod json;
pub mod validation;
pub mod gc;
pub mod errors;
pub mod auth;
pub mod blobs;
pub mod manifests;
pub mod middleware;
pub mod admin;
pub mod health;
pub mod utils;
