use inline_proc_macros::codec::encode_textual;
use inline_proc_macros::error::Error;
use inline_proc_macros::glue::{ArtifactRef, Binding, make_bindings};
use inline_proc_macros::model::{Attr, CompilationUnit, FnDecl, Item, Stmt, Token};
use inline_proc_macros::pipeline::compile;
use inline_proc_macros::runtime::{SandboxOutcome, classify_outcome, parse_eval_input, resolve_embedded};

fn quoted_literal(text: &[u8]) -> Token {
    let mut lit = vec![b'"'];
    lit.extend_from_slice(text);
    lit.push(b'"');
    Token::Literal(lit)
}

#[test]
fn invocation_is_parsed_into_name_artifact_and_args() {
    let wasm = vec![0, 97, 115, 109, 1, 0, 0, 0];
    let encoded = encode_textual(&wasm);
    let tokens = vec![
        Token::Ident("doubler".to_string()),
        quoted_literal(&encoded),
        Token::Ident("42".to_string()),
        Token::Punct(';'),
    ];
    let q = parse_eval_input(&tokens).unwrap();
    assert_eq!(q.fun, "doubler");
    assert_eq!(q.wasm, wasm);
    assert_eq!(q.args, vec![Token::Ident("42".to_string()), Token::Punct(';')]);
}

#[test]
fn invocation_without_name_or_literal_is_malformed() {
    assert_eq!(
        parse_eval_input(&vec![]).unwrap_err(),
        Error::MalformedInvocation,
    );
    assert_eq!(
        parse_eval_input(&vec![Token::Ident("f".to_string())]).unwrap_err(),
        Error::MalformedInvocation,
    );
    assert_eq!(
        parse_eval_input(&vec![
            Token::Punct('!'),
            quoted_literal(b"AAAA"),
        ]).unwrap_err(),
        Error::MalformedInvocation,
    );
    assert_eq!(
        parse_eval_input(&vec![
            Token::Ident("f".to_string()),
            Token::Literal(b"AAAA".to_vec()),
        ]).unwrap_err(),
        Error::MalformedInvocation,
    );
}

#[test]
fn invocation_with_undecodable_artifact_is_rejected() {
    assert_eq!(
        parse_eval_input(&vec![
            Token::Ident("f".to_string()),
            quoted_literal(b"not base sixty-four"),
        ]).unwrap_err(),
        Error::InvalidArtifactEncoding,
    );
}

#[test]
fn sandbox_output_passes_through() {
    let out = vec![Token::Ident("84".to_string())];
    let r = classify_outcome("doubler", SandboxOutcome::Output(out.clone()), false);
    assert_eq!(r.unwrap(), out);
}

#[test]
fn missing_export_is_fatal_and_named() {
    let r = classify_outcome("gone", SandboxOutcome::MissingExport, true);
    assert_eq!(r.unwrap_err(), Error::ExportNotFound { name: "gone".to_string() });
}

#[test]
fn sandbox_failure_is_contained_and_terse_by_default() {
    let r = classify_outcome("f", SandboxOutcome::Failure("boom at input 7".to_string()), false);
    assert_eq!(r.unwrap_err(), Error::SandboxedExecutionFailed { detail: None });
}

#[test]
fn sandbox_failure_carries_payload_when_verbose() {
    let r = classify_outcome("f", SandboxOutcome::Failure("boom at input 7".to_string()), true);
    assert_eq!(
        r.unwrap_err(),
        Error::SandboxedExecutionFailed { detail: Some("boom at input 7".to_string()) },
    );
}

#[test]
fn failed_invocation_does_not_disturb_the_next() {
    let r1 = classify_outcome("f", SandboxOutcome::Failure("boom".to_string()), false);
    assert!(r1.is_err());
    let out = vec![Token::Ident("ok".to_string())];
    let r2 = classify_outcome("g", SandboxOutcome::Output(out.clone()), false);
    assert_eq!(r2.unwrap(), out);
}

#[test]
fn bindings_carry_names_attributes_and_artifact() {
    let unit = CompilationUnit {
        items: vec![Item::Fn(FnDecl {
            name: "doubler".to_string(),
            is_public: true,
            abi: None,
            attrs: vec![
                Attr { path: "doc".to_string(), payload: 4 },
                Attr { path: "proc_macro".to_string(), payload: 0 },
            ],
            body: vec![Stmt::Opaque(1)],
        })],
    };
    let plan = compile(unit).unwrap();
    let artifact = ArtifactRef::PathRef("/out/inline_proc_macros/doubler.wasm".to_string());
    let bindings = make_bindings(&plan.exports, &artifact);
    assert_eq!(
        bindings,
        vec![Binding {
            name: "doubler".to_string(),
            attrs: vec![Attr { path: "doc".to_string(), payload: 4 }],
            artifact: ArtifactRef::PathRef("/out/inline_proc_macros/doubler.wasm".to_string()),
        }],
    );
}

#[test]
fn embedded_artifact_survives_the_whole_pipeline() {
    // Build side: a compiled artifact is encoded and inlined; invocation
    // side: the inlined literal decodes back to the same bytes.
    let artifact_bytes = vec![0, 97, 115, 109, 9, 9, 9];
    let encoded = encode_textual(&artifact_bytes);
    let artifact = ArtifactRef::Embedded(encoded.clone());
    let exports = vec![inline_proc_macros::model::ExportedFunction {
        name: "doubler".to_string(),
        original_attributes: vec![],
    }];
    let bindings = make_bindings(&exports, &artifact);
    assert_eq!(bindings.len(), 1);
    let tokens = vec![
        Token::Ident(bindings[0].name.clone()),
        quoted_literal(&encoded),
        Token::Ident("42".to_string()),
    ];
    let q = parse_eval_input(&tokens).unwrap();
    assert_eq!(q.wasm, artifact_bytes);
}

#[test]
fn embedded_reference_resolves_to_its_bytes() {
    let bytes = vec![1, 2, 3, 4, 5];
    let art = ArtifactRef::Embedded(encode_textual(&bytes));
    assert_eq!(resolve_embedded(&art).unwrap(), Some(bytes));
}

#[test]
fn path_reference_resolves_outside_the_library() {
    let art = ArtifactRef::PathRef("/out/inline_proc_macros/m.wasm".to_string());
    assert_eq!(resolve_embedded(&art).unwrap(), None);
}

#[test]
fn undecodable_embedded_reference_is_rejected() {
    let art = ArtifactRef::Embedded(b"%%%%".to_vec());
    assert_eq!(resolve_embedded(&art).unwrap_err(), Error::InvalidArtifactEncoding);
}
