//! The build pipeline's front door: validates and rewrites a compilation
//! unit, producing the rewritten unit and the exported-function records
//! from which the build and the dispatch bindings proceed.
//!
//! A unit with an invalid export is rejected here, before anything else of
//! the build — no source is assembled and no compiler is spawned for it.

use vstd::prelude::*;
use crate::error::{Error, ErrorV};
use crate::extract::{
    exports_of, extract_exports, first_violation, rewrite_items, violation_of,
};
use crate::model::{CompilationUnit, ExportedFunction, ItemV, view_exports};

verus! {

/// Everything the build needs from a validated compilation unit: the
/// rewritten unit to serialize and compile, and the exported functions to
/// bind.
#[derive(Debug)]
pub struct BuildPlan {
    pub unit: CompilationUnit,
    pub exports: Vec<ExportedFunction>,
}

/// Validates and rewrites a compilation unit. On success the plan holds
/// the unit with every marked function rewritten into an externally
/// callable export, and one record per marked function, in order. On the
/// first marked function that is not public or carries an explicit
/// calling-convention annotation, fails with `InvalidExportKind` citing
/// that function, and no build is attempted.
pub fn compile(unit: CompilationUnit) -> (r: Result<BuildPlan, Error>)
    ensures
        r is Ok <==> first_violation(unit@) is None,
        (r matches Ok(p) ==> p.unit@ == rewrite_items(unit@)),
        (r matches Ok(p) ==> view_exports(p.exports@) == exports_of(unit@)),
        (r matches Err(e) ==> first_violation(unit@) matches Some(j) && unit@[j] matches
            ItemV::Fn(f) && e@ == (ErrorV::InvalidExportKind {
            name: f.name,
            violation: violation_of(f),
        })),
{
    let mut u = unit;
    match extract_exports(&mut u) {
        Ok(exports) => Ok(BuildPlan { unit: u, exports }),
        Err(e) => Err(e),
    }
}

} // verus!
