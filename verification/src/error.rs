//! The library's error type.  Variants carry plain values only; callers that
//! need to attach I/O or serialization failures wrap them in their own types.

use vstd::prelude::*;

verus! {

/// Everything that can go wrong across the tool's workflows.
#[derive(Debug)]
pub enum SuiForgeError {
    ProjectExists(String),
    NotInProject,
    InvalidTemplate(String),
    InvalidNetwork(String),
    SuiCliNotFound,
    BuildFailed(String),
    TestFailed(String),
    DeploymentFailed(String),
    CodegenFailed(String),
    ConfigError(String),
    Custom(String),
}

} // verus!
