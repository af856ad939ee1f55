//! The result shape of specifier-to-path resolution.  Resolution
//! itself walks the package tree on disk and belongs to the host; the
//! core only consumes the plain values it yields.

use vstd::prelude::*;

verus! {

/// What resolving an import specifier against a base path yields:
/// either the resolved absolute path with the target package's module
/// type, or the resolver's error message.
#[derive(Debug, PartialEq, Eq)]
pub struct ResolveResult {
    pub path: Option<String>,
    pub error: Option<String>,
    /// The `type` field of the resolved package's `package.json`.
    pub module_type: Option<String>,
}

} // verus!
