//! GitHub Actions service/API compatibility checks for offline CI systems.
//!
//! The library does not call GitHub. It classifies every requested call as
//! `exact`, `simulated` or `unsupported`, checks that a workflow's resolved
//! permissions cover each call, and builds receipts that downstream runners
//! can attach to job provenance.

use vstd::prelude::*;

pub mod call;
pub mod catalog;
pub mod engine;
pub mod gh_log;
pub mod json;
pub mod model;
pub mod oidc;
pub mod permissions;
pub mod render;
pub mod text;
pub mod value;
pub mod workflow;

verus! {

pub const TOOL_NAME: &'static str = "gha-github-service-proof";

pub const TOOL_VERSION: &'static str = "1.0.1";

} // verus!
