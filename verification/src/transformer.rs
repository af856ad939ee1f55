//! The pipeline controller: canonicalize, then — unless the wildcard
//! `*` is requested — shake.
//!
//! The wildcard fast path returns the canonicalized module without ever
//! invoking the shaker, so a wildcard request can only fail where
//! canonicalization itself fails.  Parsing source text into a
//! [`Module`], resolving references, and printing the result are the
//! business of the surrounding host; the controller works on the module
//! model alone, and diagnostics of the host's parses travel outside it.

use vstd::prelude::*;

use crate::ast::{clone_module, contains_name, Module, ModuleV, TransformError, TransformErrorV};
use crate::export_expand::{canonicalize_spec, ExportReplacer};
use crate::shake::{shake, shake_spec};

verus! {

/// What the host-facing transformation returns: the transformed code,
/// and the parse diagnostics collected on the way.  If parsing failed
/// outright the code is an empty string.
#[derive(Debug, PartialEq, Eq)]
pub struct TransformResult {
    pub code: String,
    pub errors: Vec<String>,
}

/// The output of one pipeline run as the host assembles it: the
/// printed or serialized module, and the diagnostics of both parses.
#[derive(Debug, PartialEq, Eq)]
pub struct TransformInner {
    pub output: String,
    pub errors: Vec<String>,
}

/// What the pipeline produces: the canonicalized module, shaken for
/// the requested exports unless the wildcard is among them; the error
/// of the first unsupported construct otherwise.
pub open spec fn pipeline_spec(m: ModuleV, filename: Seq<char>, req: Seq<Seq<char>>) -> Result<
    ModuleV,
    TransformErrorV,
> {
    match canonicalize_spec(m, filename) {
        Err(e) => Err(e),
        Ok(c) => if req.contains("*"@) {
            Ok(c)
        } else {
            Ok(shake_spec(c, req))
        },
    }
}

/// Law: a wildcard request yields the canonicalized-but-unshaken
/// module.  The shaker contributes nothing to the result, and the run
/// fails exactly where canonicalization itself fails.
pub proof fn lemma_wildcard_skips_shaker(m: ModuleV, filename: Seq<char>, req: Seq<Seq<char>>)
    requires
        req.contains("*"@),
    ensures
        pipeline_spec(m, filename, req) == canonicalize_spec(m, filename),
{
}

/// Runs the pipeline on one module: canonicalize; then, unless the
/// wildcard `*` is requested, shake for the requested export names.
pub fn transform_inner(filename: &String, program: &Module, only_exports: &Vec<String>) -> (r:
    Result<Module, TransformError>)
    ensures
        r matches Ok(out) ==> (pipeline_spec(program@, filename@, only_exports.deep_view())
            matches Ok(v) && out@ == v),
        r matches Err(e) ==> (pipeline_spec(program@, filename@, only_exports.deep_view())
            matches Err(ev) && e@ == ev),
{
    let replacer = ExportReplacer::new(filename.clone());
    let mut canonical = clone_module(program);
    match replacer.build(&mut canonical) {
        Err(e) => {
            return Err(e);
        },
        Ok(()) => {},
    }
    let star: String = "*".to_owned();
    if contains_name(only_exports, &star) {
        return Ok(canonical);
    }
    let shaken = shake(&canonical, only_exports);
    Ok(shaken)
}

/// Law: the pipeline fails exactly where canonicalization fails; the
/// shaker and the wildcard fast path never add a failure of their own.
pub proof fn lemma_pipeline_success(m: ModuleV, filename: Seq<char>, req: Seq<Seq<char>>)
    ensures
        pipeline_spec(m, filename, req) is Ok <==> canonicalize_spec(m, filename) is Ok,
{
}

} // verus!
