//! Build pipeline and sandbox-invocation support for document-embedded,
//! ahead-of-time compiled code-transformation functions.
//!
//! The library holds the decision logic of the pipeline: extracting and
//! rewriting exportable functions from a parsed compilation unit, encoding
//! and decoding the compiled artifact, assembling the external compiler's
//! argument list, and classifying build and sandbox outcomes. The pieces
//! that spawn processes, touch the filesystem or drive the embedded
//! interpreter live outside, hand plain values in, and take plain values
//! back.

pub mod codec;
pub mod error;
pub mod extract;
pub mod glue;
pub mod model;
pub mod orchestrate;
pub mod pipeline;
pub mod runtime;
