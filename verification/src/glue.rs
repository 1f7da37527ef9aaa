//! Dispatch glue: the records from which the thin callable bindings are
//! generated, one per exported function.
//!
//! A binding carries the export's name, the original attributes captured
//! beside the marker (so documentation and other host-visible metadata
//! survive onto the callable surface), and the artifact reference — either
//! the textual encoding inlined, or a build-output path.

use vstd::prelude::*;
use crate::model::{Attr, AttrV, ExportedFunction, duplicate_attrs, duplicate_bytes, view_attrs};

verus! {

/// How a binding refers to the compiled artifact.
#[derive(Clone, Debug, PartialEq, Eq)]
pub enum ArtifactRef {
    /// The artifact inlined as its textual encoding.
    Embedded(Vec<u8>),
    /// A path into the build-output directory.
    PathRef(String),
}

/// The mathematical image of an [`ArtifactRef`].
pub enum ArtifactRefV {
    Embedded(Seq<u8>),
    PathRef(Seq<char>),
}

impl View for ArtifactRef {
    type V = ArtifactRefV;

    open spec fn view(&self) -> ArtifactRefV {
        match self {
            ArtifactRef::Embedded(b) => ArtifactRefV::Embedded(b@),
            ArtifactRef::PathRef(p) => ArtifactRefV::PathRef(p@),
        }
    }
}

impl ArtifactRef {
    /// An equal artifact reference.
    pub fn duplicate(&self) -> (r: ArtifactRef)
        ensures
            r@ == self@,
    {
        match self {
            ArtifactRef::Embedded(b) => ArtifactRef::Embedded(duplicate_bytes(b)),
            ArtifactRef::PathRef(p) => ArtifactRef::PathRef(p.clone()),
        }
    }
}

/// One generated callable binding.
#[derive(Clone, Debug, PartialEq, Eq)]
pub struct Binding {
    pub name: String,
    pub attrs: Vec<Attr>,
    pub artifact: ArtifactRef,
}

/// The mathematical image of a [`Binding`].
pub struct BindingV {
    pub name: Seq<char>,
    pub attrs: Seq<AttrV>,
    pub artifact: ArtifactRefV,
}

impl View for Binding {
    type V = BindingV;

    open spec fn view(&self) -> BindingV {
        BindingV { name: self.name@, attrs: view_attrs(self.attrs@), artifact: self.artifact@ }
    }
}

/// One binding per exported function, in extraction order: each keeps the
/// export's name and captured attributes, and refers to the one artifact.
pub fn make_bindings(exports: &Vec<ExportedFunction>, artifact: &ArtifactRef) -> (r: Vec<Binding>)
    ensures
        r@.len() == exports@.len(),
        forall|k: int| 0 <= k < exports@.len() ==> #[trigger] r@[k]@ == (BindingV {
            name: exports@[k]@.name,
            attrs: exports@[k]@.original_attributes,
            artifact: artifact@,
        }),
{
    let mut r: Vec<Binding> = Vec::new();
    let mut j: usize = 0;
    while j < exports.len()
        invariant
            j <= exports.len(),
            r@.len() == j,
            forall|k: int| 0 <= k < j ==> #[trigger] r@[k]@ == (BindingV {
                name: exports@[k]@.name,
                attrs: exports@[k]@.original_attributes,
                artifact: artifact@,
            }),
        decreases exports.len() - j,
    {
        let e = &exports[j];
        r.push(Binding {
            name: e.name.clone(),
            attrs: duplicate_attrs(&e.original_attributes),
            artifact: artifact.duplicate(),
        });
        j += 1;
    }
    r
}

} // verus!
