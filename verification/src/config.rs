//! The settings that have a default: each is taken as configured, or falls
//! back to the value that is fixed here.
use vstd::prelude::*;

verus! {

/// Where the component catalog is read from unless another path is configured.
pub const DEFAULT_DEFS_PATH: &'static str =
    "../../../../frontend/src/constants/architecture_defs.json";

/// The browser origin that may call unless another one is configured.
pub const DEFAULT_FRONTEND_ORIGIN: &'static str = "http://localhost:5173";

/// A setting as configured, or its default where it is not configured.
pub open spec fn spec_or_default(configured: Option<String>, default: Seq<char>) -> Seq<char> {
    match configured {
        Some(value) => value@,
        None => default,
    }
}

/// The path of the component catalog.
pub fn architecture_defs_path(configured: Option<String>) -> (path: String)
    ensures
        path@ == spec_or_default(configured, DEFAULT_DEFS_PATH@),
{
    match configured {
        Some(value) => value,
        None => DEFAULT_DEFS_PATH.to_string(),
    }
}

/// The browser origin that is allowed to call.
pub fn frontend_origin(configured: Option<String>) -> (origin: String)
    ensures
        origin@ == spec_or_default(configured, DEFAULT_FRONTEND_ORIGIN@),
{
    match configured {
        Some(value) => value,
        None => DEFAULT_FRONTEND_ORIGIN.to_string(),
    }
}

} // verus!
