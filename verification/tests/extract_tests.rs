use inline_proc_macros::error::{Error, ExportViolation};
use inline_proc_macros::model::{Attr, CompilationUnit, FnDecl, Item, Stmt};
use inline_proc_macros::pipeline::compile;

fn attr(path: &str, payload: u64) -> Attr {
    Attr { path: path.to_string(), payload }
}

fn marked_fn(name: &str) -> FnDecl {
    FnDecl {
        name: name.to_string(),
        is_public: true,
        abi: None,
        attrs: vec![attr("doc", 7), attr("proc_macro", 0), attr("inline", 9)],
        body: vec![Stmt::Opaque(1), Stmt::Opaque(2)],
    }
}

fn plain_fn(name: &str) -> FnDecl {
    FnDecl {
        name: name.to_string(),
        is_public: false,
        abi: None,
        attrs: vec![attr("doc", 3)],
        body: vec![Stmt::Opaque(5)],
    }
}

#[test]
fn marked_function_is_rewritten_and_exported() {
    let unit = CompilationUnit { items: vec![Item::Fn(marked_fn("doubler"))] };
    let plan = compile(unit).unwrap();
    assert_eq!(plan.exports.len(), 1);
    assert_eq!(plan.exports[0].name, "doubler");
    assert_eq!(
        plan.exports[0].original_attributes,
        vec![attr("doc", 7), attr("inline", 9)],
    );
    assert_eq!(plan.unit.items.len(), 1);
    match &plan.unit.items[0] {
        Item::Fn(f) => {
            assert_eq!(f.name, "doubler");
            assert!(f.is_public);
            assert_eq!(f.abi, Some("C".to_string()));
            assert_eq!(f.attrs, vec![attr("no_mangle", 0)]);
            assert_eq!(f.body, vec![Stmt::PanicHook, Stmt::Opaque(1), Stmt::Opaque(2)]);
        },
        other => panic!("expected a function, got {:?}", other),
    }
}

#[test]
fn unmarked_items_pass_through_untouched() {
    let unit = CompilationUnit {
        items: vec![Item::Fn(plain_fn("helper")), Item::Other(11)],
    };
    let plan = compile(unit).unwrap();
    assert!(plan.exports.is_empty());
    assert_eq!(
        plan.unit.items,
        vec![Item::Fn(plain_fn("helper")), Item::Other(11)],
    );
}

#[test]
fn nonpublic_export_is_rejected_by_name() {
    let mut bad = marked_fn("secretive");
    bad.is_public = false;
    let unit = CompilationUnit {
        items: vec![Item::Fn(marked_fn("fine")), Item::Fn(bad)],
    };
    let err = compile(unit).unwrap_err();
    assert_eq!(
        err,
        Error::InvalidExportKind {
            name: "secretive".to_string(),
            violation: ExportViolation::NotPublic,
        },
    );
}

#[test]
fn explicit_calling_convention_is_rejected() {
    let mut bad = marked_fn("already_c");
    bad.abi = Some("C".to_string());
    let unit = CompilationUnit { items: vec![Item::Fn(bad)] };
    let err = compile(unit).unwrap_err();
    assert_eq!(
        err,
        Error::InvalidExportKind {
            name: "already_c".to_string(),
            violation: ExportViolation::ExplicitAbi,
        },
    );
}

#[test]
fn visibility_is_checked_before_calling_convention() {
    let mut bad = marked_fn("doubly_bad");
    bad.is_public = false;
    bad.abi = Some("C".to_string());
    let unit = CompilationUnit { items: vec![Item::Fn(bad)] };
    let err = compile(unit).unwrap_err();
    assert_eq!(
        err,
        Error::InvalidExportKind {
            name: "doubly_bad".to_string(),
            violation: ExportViolation::NotPublic,
        },
    );
}

#[test]
fn extraction_is_idempotent() {
    let unit = CompilationUnit {
        items: vec![Item::Fn(marked_fn("doubler")), Item::Other(3)],
    };
    let first = compile(unit).unwrap();
    let rewritten: Vec<Item> = first.unit.items.iter().map(|it| it.duplicate()).collect();
    let second = compile(first.unit).unwrap();
    assert!(second.exports.is_empty());
    assert_eq!(second.unit.items, rewritten);
}

#[test]
fn export_order_follows_item_order() {
    let unit = CompilationUnit {
        items: vec![
            Item::Fn(marked_fn("first")),
            Item::Other(1),
            Item::Fn(marked_fn("second")),
        ],
    };
    let plan = compile(unit).unwrap();
    let names: Vec<&str> = plan.exports.iter().map(|e| e.name.as_str()).collect();
    assert_eq!(names, vec!["first", "second"]);
}

#[test]
fn empty_unit_yields_no_exports() {
    let plan = compile(CompilationUnit { items: vec![] }).unwrap();
    assert!(plan.exports.is_empty());
    assert!(plan.unit.items.is_empty());
}

#[test]
fn duplicate_export_names_are_both_recorded_in_order() {
    let unit = CompilationUnit {
        items: vec![Item::Fn(marked_fn("twin")), Item::Fn(marked_fn("twin"))],
    };
    let plan = compile(unit).unwrap();
    let names: Vec<&str> = plan.exports.iter().map(|e| e.name.as_str()).collect();
    assert_eq!(names, vec!["twin", "twin"]);
}
