//! The sandbox invocation runtime's verified half: parsing an invocation
//! request (export name, inlined textual artifact, argument tokens),
//! recovering the artifact bytes, and classifying what came back from the
//! embedded interpreter.
//!
//! The caller owns the interpreter: it loads the bytes, calls the export,
//! and reports the outcome — output tokens, a missing export, or a failure
//! signalled inside the sandbox — which is classified here into the
//! library's error taxonomy.

use vstd::prelude::*;
use crate::codec::decode_bytes;
use crate::codec::decode_textual;
use crate::error::{Error, ErrorV};
use crate::glue::{ArtifactRef, ArtifactRefV};
use crate::model::{Token, TokenV, view_tokens};

verus! {

/// Whether a literal's text is a quoted string: at least the two quote
/// characters, one at each end.
pub open spec fn quoted(l: Seq<u8>) -> bool {
    l.len() >= 2 && l[0] == 34 && l.last() == 34
}

/// The text between a quoted literal's quotes.
pub open spec fn literal_inner(l: Seq<u8>) -> Seq<u8> {
    l.subrange(1, l.len() - 1)
}

/// Whether an invocation's tokens have the expected shape: the export's
/// name, then the artifact's textual encoding as a quoted literal, then
/// the arguments.
pub open spec fn invocation_shape_ok(ts: Seq<TokenV>) -> bool {
    ts.len() >= 2 && ts[0] is Ident && (ts[1] matches TokenV::Literal(l) && quoted(l))
}

/// The artifact bytes an invocation carries, where its shape is as
/// expected and the quoted literal decodes.
pub open spec fn invocation_wasm(ts: Seq<TokenV>) -> Option<Seq<u8>> {
    match ts[1] {
        TokenV::Literal(l) => decode_bytes(literal_inner(l)),
        _ => None,
    }
}

/// One parsed invocation request.
#[derive(Clone, Debug, PartialEq, Eq)]
pub struct EvalRequest {
    /// The export to call.
    pub fun: String,
    /// The decoded artifact bytes.
    pub wasm: Vec<u8>,
    /// The argument tokens handed to the export.
    pub args: Vec<Token>,
}

/// Parses an invocation request: the first token names the export, the
/// second holds the artifact's textual encoding as a quoted literal, and
/// the rest are the arguments. Fails with `MalformedInvocation` on any
/// other shape, and with `InvalidArtifactEncoding` where the shape is
/// right but the literal's text is no well-formed encoding.
pub fn parse_eval_input(tokens: &Vec<Token>) -> (r: Result<EvalRequest, Error>)
    ensures
        r is Ok <==> invocation_shape_ok(view_tokens(tokens@)) && invocation_wasm(
            view_tokens(tokens@),
        ) is Some,
        (r matches Ok(q) ==> view_tokens(tokens@)[0] == TokenV::Ident(q.fun@)),
        (r matches Ok(q) ==> invocation_wasm(view_tokens(tokens@)) == Some(q.wasm@)),
        (r matches Ok(q) ==> view_tokens(q.args@) == view_tokens(tokens@).skip(2)),
        (r matches Err(e) ==> e@ == (if invocation_shape_ok(view_tokens(tokens@)) {
            ErrorV::InvalidArtifactEncoding
        } else {
            ErrorV::MalformedInvocation
        })),
{
    let ghost tv = view_tokens(tokens@);
    proof {
        assert(tv.len() == tokens@.len());
    }
    if tokens.len() < 2 {
        return Err(Error::MalformedInvocation);
    }
    let fun = match &tokens[0] {
        Token::Ident(s) => s.clone(),
        _ => {
            proof {
                assert(tv[0] == tokens@[0]@);
            }
            return Err(Error::MalformedInvocation);
        },
    };
    proof {
        assert(tv[0] == tokens@[0]@);
    }
    let lit = match &tokens[1] {
        Token::Literal(l) => l,
        _ => {
            proof {
                assert(tv[1] == tokens@[1]@);
            }
            return Err(Error::MalformedInvocation);
        },
    };
    proof {
        assert(tv[1] == tokens@[1]@);
    }
    if lit.len() < 2 {
        return Err(Error::MalformedInvocation);
    }
    if lit[0] != 34 || lit[lit.len() - 1] != 34 {
        return Err(Error::MalformedInvocation);
    }
    let mut inner: Vec<u8> = Vec::new();
    let mut k: usize = 1;
    while k < lit.len() - 1
        invariant
            1 <= k <= lit@.len() - 1,
            inner@ == lit@.subrange(1, k as int),
        decreases lit.len() - k,
    {
        inner.push(lit[k]);
        proof {
            assert(inner@ =~= lit@.subrange(1, k as int + 1));
        }
        k += 1;
    }
    let wasm = match decode_textual(&inner) {
        Ok(w) => w,
        Err(_) => {
            proof {
                assert(literal_inner(lit@) == inner@);
            }
            return Err(Error::InvalidArtifactEncoding);
        },
    };
    proof {
        assert(literal_inner(lit@) == inner@);
    }
    let mut args: Vec<Token> = Vec::new();
    let mut k: usize = 2;
    while k < tokens.len()
        invariant
            2 <= k <= tokens@.len(),
            tokens@.len() >= 2,
            args@.len() == k - 2,
            forall|m: int| 0 <= m < k - 2 ==> #[trigger] args@[m]@ == tokens@[m + 2]@,
        decreases tokens.len() - k,
    {
        args.push(tokens[k].duplicate());
        k += 1;
    }
    proof {
        assert forall|m: int| 0 <= m < view_tokens(args@).len() implies view_tokens(args@)[m]
            == tv.skip(2)[m] by {
            assert(view_tokens(args@)[m] == args@[m]@);
            assert(tv.skip(2)[m] == tv[m + 2]);
            assert(tv[m + 2] == tokens@[m + 2]@);
        }
        assert(view_tokens(args@) =~= tv.skip(2));
    }
    Ok(EvalRequest { fun, wasm, args })
}

/// The artifact bytes a reference yields without touching the filesystem:
/// an embedded textual encoding is decoded here; a path reference yields
/// nothing and must be read from the build-output directory by the caller.
pub fn resolve_embedded(art: &ArtifactRef) -> (r: Result<Option<Vec<u8>>, Error>)
    ensures
        (art@ matches ArtifactRefV::Embedded(t) ==> (r is Ok <==> decode_bytes(t) is Some)),
        (art@ matches ArtifactRefV::Embedded(t) ==> (r matches Ok(o) ==> o matches Some(v)
            && Some(v@) == decode_bytes(t))),
        (art@ matches ArtifactRefV::Embedded(t) ==> (r matches Err(e)
            ==> e@ is InvalidArtifactEncoding)),
        (art@ is PathRef ==> (r matches Ok(o) && o is None)),
{
    match art {
        ArtifactRef::Embedded(text) => match decode_textual(text) {
            Ok(bytes) => Ok(Some(bytes)),
            Err(e) => Err(e),
        },
        ArtifactRef::PathRef(_) => Ok(None),
    }
}

/// What the embedded interpreter reported for one invocation.
#[derive(Clone, Debug, PartialEq, Eq)]
pub enum SandboxOutcome {
    /// The export ran to completion and returned these tokens.
    Output(Vec<Token>),
    /// The requested export is not present in the loaded artifact.
    MissingExport,
    /// The sandboxed function signalled failure; the payload is what the
    /// containment hook captured.
    Failure(String),
}

/// The mathematical image of a [`SandboxOutcome`].
pub enum SandboxOutcomeV {
    Output(Seq<TokenV>),
    MissingExport,
    Failure(Seq<char>),
}

impl View for SandboxOutcome {
    type V = SandboxOutcomeV;

    open spec fn view(&self) -> SandboxOutcomeV {
        match self {
            SandboxOutcome::Output(v) => SandboxOutcomeV::Output(view_tokens(v@)),
            SandboxOutcome::MissingExport => SandboxOutcomeV::MissingExport,
            SandboxOutcome::Failure(m) => SandboxOutcomeV::Failure(m@),
        }
    }
}

/// Classifies what came back from the interpreter: output tokens pass
/// through unchanged; a missing export is `ExportNotFound` naming the
/// requested function; a failure signalled inside the sandbox is
/// `SandboxedExecutionFailed`, carrying the captured payload only under
/// verbose diagnostics.
pub fn classify_outcome(fun: &str, outcome: SandboxOutcome, verbose: bool) -> (r: Result<
    Vec<Token>,
    Error,
>)
    ensures
        r is Ok <==> outcome@ is Output,
        (r matches Ok(v) ==> outcome@ == SandboxOutcomeV::Output(view_tokens(v@))),
        (outcome@ is MissingExport ==> (r matches Err(e) && e@ == (ErrorV::ExportNotFound {
            name: fun@,
        }))),
        (outcome@ matches SandboxOutcomeV::Failure(msg) ==> (r matches Err(e) && e@
            == (ErrorV::SandboxedExecutionFailed {
            detail: if verbose {
                Some(msg)
            } else {
                None
            },
        }))),
{
    match outcome {
        SandboxOutcome::Output(v) => Ok(v),
        SandboxOutcome::MissingExport => Err(Error::ExportNotFound { name: fun.to_owned() }),
        SandboxOutcome::Failure(m) => Err(
            Error::SandboxedExecutionFailed {
                detail: if verbose {
                    Some(m)
                } else {
                    None
                },
            },
        ),
    }
}

} // verus!
