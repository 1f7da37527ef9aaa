//! The source extractor: finds every top-level function carrying the
//! exportable marker attribute, validates it, and rewrites it into an
//! externally callable, unmangled export with the panic-containment hook
//! installed as its first statement.
//!
//! Validation precedes rewriting, so a rejected compilation unit is handed
//! back unchanged and no build is attempted on it.
//!
//! Two marked functions may share one name: both are recorded, in order,
//! and of the two generated bindings the later shadows the earlier, as any
//! redefinition of a macro does.

use vstd::prelude::*;
use vstd::string::*;
use crate::error::{Error, ExportViolation};
use crate::model::{Attr, AttrV, CompilationUnit, ExportedFunction, ExportedFunctionV, FnDecl,
    FnDeclV, Item, ItemV, Stmt, view_attrs, view_exports, view_items};

verus! {

/// The path of the marker attribute that designates an exportable function.
pub open spec fn marker_path() -> Seq<char> {
    "proc_macro"@
}

/// The path of the attribute that disables name-mangling on an export.
pub open spec fn no_mangle_path() -> Seq<char> {
    "no_mangle"@
}

/// The calling-convention name the rewrite imposes.
pub open spec fn c_abi_name() -> Seq<char> {
    "C"@
}

/// Whether an attribute is the exportable marker.
pub open spec fn is_marker(a: AttrV) -> bool {
    a.path == marker_path()
}

/// Whether a function carries the exportable marker.
pub open spec fn is_marked(f: FnDeclV) -> bool {
    exists|j: int| 0 <= j < f.attrs.len() && is_marker(#[trigger] f.attrs[j])
}

/// Whether an item is a marked function that violates a structural
/// precondition of export: non-public visibility, or an explicit
/// calling-convention annotation.
pub open spec fn item_violates(it: ItemV) -> bool {
    match it {
        ItemV::Fn(f) => is_marked(f) && (!f.is_public || f.abi is Some),
        ItemV::Other(_) => false,
    }
}

/// Which precondition a violating function is reported for: visibility is
/// checked first, then the calling-convention annotation.
pub open spec fn violation_of(f: FnDeclV) -> ExportViolation {
    if !f.is_public {
        ExportViolation::NotPublic
    } else {
        ExportViolation::ExplicitAbi
    }
}

/// The index of the first violating item, if any.
pub open spec fn first_violation(items: Seq<ItemV>) -> Option<int>
    decreases items.len(),
{
    if items.len() == 0 {
        None
    } else if item_violates(items[0]) {
        Some(0 as int)
    } else {
        match first_violation(items.drop_first()) {
            Some(j) => Some(j + 1),
            None => None,
        }
    }
}

/// The attributes that stood beside the marker, in order: every attribute
/// of the function except the marker itself.
pub open spec fn kept_attrs(attrs: Seq<AttrV>) -> Seq<AttrV> {
    attrs.filter(|a: AttrV| !is_marker(a))
}

/// A marked function after the rewrite: public, C calling convention,
/// unmangled, with the panic-containment hook as its first statement, and
/// all original attributes moved off onto the dispatch binding.
pub open spec fn rewritten_fn(f: FnDeclV) -> FnDeclV {
    FnDeclV {
        name: f.name,
        is_public: true,
        abi: Some(c_abi_name()),
        attrs: seq![AttrV { path: no_mangle_path(), payload: 0 }],
        body: seq![Stmt::PanicHook] + f.body,
    }
}

/// One item after extraction: a marked function is rewritten, everything
/// else passes through untouched.
pub open spec fn rewrite_item(it: ItemV) -> ItemV {
    match it {
        ItemV::Fn(f) => if is_marked(f) {
            ItemV::Fn(rewritten_fn(f))
        } else {
            it
        },
        ItemV::Other(_) => it,
    }
}

/// A whole compilation unit after extraction.
pub open spec fn rewrite_items(items: Seq<ItemV>) -> Seq<ItemV> {
    items.map_values(|it: ItemV| rewrite_item(it))
}

/// The exported-function records one item contributes.
pub open spec fn item_exports(it: ItemV) -> Seq<ExportedFunctionV> {
    match it {
        ItemV::Fn(f) => if is_marked(f) {
            seq![ExportedFunctionV { name: f.name, original_attributes: kept_attrs(f.attrs) }]
        } else {
            Seq::empty()
        },
        ItemV::Other(_) => Seq::empty(),
    }
}

/// The exported-function records of a whole compilation unit, in item
/// order.
pub open spec fn exports_of(items: Seq<ItemV>) -> Seq<ExportedFunctionV>
    decreases items.len(),
{
    if items.len() == 0 {
        Seq::empty()
    } else {
        exports_of(items.drop_last()) + item_exports(items.last())
    }
}

/// A scan that saw no violation among the first `i` items pins down
/// `first_violation`: none at all if the scan is complete, and exactly `i`
/// if item `i` violates.
proof fn lemma_first_violation_scan(items: Seq<ItemV>, i: int)
    requires
        0 <= i <= items.len(),
        forall|k: int| 0 <= k < i ==> !item_violates(#[trigger] items[k]),
    ensures
        i == items.len() ==> first_violation(items) is None,
        i < items.len() && item_violates(items[i]) ==> first_violation(items) == Some(i),
    decreases items.len(),
{
    if items.len() == 0 {
    } else if i == 0 {
    } else {
        let tail = items.drop_first();
        assert forall|k: int| 0 <= k < i - 1 implies !item_violates(#[trigger] tail[k]) by {
            assert(tail[k] == items[k + 1]);
        }
        lemma_first_violation_scan(tail, i - 1);
        if i < items.len() && item_violates(items[i]) {
            assert(tail[i - 1] == items[i]);
        }
    }
}

/// Whether `f` carries the exportable marker.
fn fn_is_marked(f: &FnDecl) -> (r: bool)
    ensures
        r == is_marked(f@),
{
    let marker: String = String::from_str("proc_macro");
    let n = f.attrs.len();
    let mut j: usize = 0;
    while j < n
        invariant
            j <= n,
            n == f.attrs.len(),
            marker@ == marker_path(),
            forall|k: int| 0 <= k < j ==> !is_marker(#[trigger] f@.attrs[k]),
        decreases n - j,
    {
        if f.attrs[j].path.eq(&marker) {
            proof {
                assert(f@.attrs[j as int] == f.attrs@[j as int]@);
                assert(is_marker(f@.attrs[j as int]));
            }
            return true;
        }
        proof {
            assert(f@.attrs[j as int] == f.attrs@[j as int]@);
        }
        j += 1;
    }
    proof {
        assert(f@.attrs.len() == n);
    }
    false
}

/// The attributes of `f` other than the marker, in order, as fresh values.
fn collect_kept_attrs(f: &FnDecl) -> (r: Vec<Attr>)
    ensures
        view_attrs(r@) == kept_attrs(f@.attrs),
{
    let marker: String = String::from_str("proc_macro");
    let ghost av = f@.attrs;
    let mut kept: Vec<Attr> = Vec::new();
    let mut j: usize = 0;
    proof {
        reveal(Seq::filter);
        assert(av.take(0) =~= Seq::<AttrV>::empty());
        assert(view_attrs(kept@) =~= kept_attrs(av.take(0)));
    }
    while j < f.attrs.len()
        invariant
            j <= f.attrs.len(),
            marker@ == marker_path(),
            av == f@.attrs,
            av.len() == f.attrs.len(),
            view_attrs(kept@) == kept_attrs(av.take(j as int)),
        decreases f.attrs.len() - j,
    {
        let ghost pre = kept@;
        let is_m = f.attrs[j].path.eq(&marker);
        if !is_m {
            kept.push(f.attrs[j].duplicate());
        }
        proof {
            reveal(Seq::filter);
            assert(av[j as int] == f.attrs@[j as int]@);
            assert(av.take(j + 1).drop_last() =~= av.take(j as int));
            assert(av.take(j + 1).last() == av[j as int]);
            if !is_m {
                assert(view_attrs(kept@) =~= view_attrs(pre).push(av[j as int]));
                assert(kept_attrs(av.take(j + 1)) == kept_attrs(av.take(j as int)).push(
                    av[j as int],
                ));
            } else {
                assert(kept_attrs(av.take(j + 1)) == kept_attrs(av.take(j as int)));
            }
        }
        j += 1;
    }
    proof {
        assert(av.take(av.len() as int) =~= av);
    }
    kept
}

/// A copy of `f`'s body with the panic-containment hook prepended.
fn hooked_body(f: &FnDecl) -> (r: Vec<Stmt>)
    ensures
        r@ == seq![Stmt::PanicHook] + f@.body,
{
    let mut body: Vec<Stmt> = Vec::new();
    body.push(Stmt::PanicHook);
    let mut j: usize = 0;
    proof {
        assert(body@ =~= seq![Stmt::PanicHook] + f.body@.take(0));
    }
    while j < f.body.len()
        invariant
            j <= f.body.len(),
            body@ == seq![Stmt::PanicHook] + f.body@.take(j as int),
        decreases f.body.len() - j,
    {
        body.push(f.body[j]);
        proof {
            assert(seq![Stmt::PanicHook] + f.body@.take(j + 1) =~= (seq![Stmt::PanicHook]
                + f.body@.take(j as int)).push(f.body@[j as int]));
        }
        j += 1;
    }
    proof {
        assert(f.body@.take(f.body@.len() as int) =~= f.body@);
    }
    body
}

/// The rewritten form of a marked function, as a fresh value.
fn rewrite_marked_fn(f: &FnDecl) -> (r: FnDecl)
    requires
        is_marked(f@),
    ensures
        r@ == rewritten_fn(f@),
{
    let mut new_attrs: Vec<Attr> = Vec::new();
    new_attrs.push(Attr { path: String::from_str("no_mangle"), payload: 0 });
    let body = hooked_body(f);
    let r = FnDecl {
        name: f.name.clone(),
        is_public: true,
        abi: Some(String::from_str("C")),
        attrs: new_attrs,
        body,
    };
    proof {
        assert(view_attrs(r.attrs@) =~= seq![AttrV { path: no_mangle_path(), payload: 0 }]);
        assert(r@ == rewritten_fn(f@));
    }
    r
}

/// Scans a compilation unit for exportable-marked functions, validates
/// them, and rewrites each in place into an externally callable export.
///
/// On success, every marked function is rewritten as [`rewritten_fn`]
/// describes, every other item is untouched, and the returned records list
/// the marked functions in order, each with the attributes that stood
/// beside its marker. On the first marked function that is not public or
/// carries an explicit calling-convention annotation, the scan fails with
/// `InvalidExportKind` citing that function's name, and the unit is handed
/// back unchanged.
pub fn extract_exports(unit: &mut CompilationUnit) -> (r: Result<Vec<ExportedFunction>, Error>)
    ensures
        r is Ok <==> first_violation(old(unit)@) is None,
        r is Ok ==> final(unit)@ == rewrite_items(old(unit)@),
        (r matches Ok(ex) ==> view_exports(ex@) == exports_of(old(unit)@)),
        r is Err ==> final(unit)@ == old(unit)@,
        (r matches Err(e) ==> first_violation(old(unit)@) matches Some(j)
            && old(unit)@[j] matches ItemV::Fn(f)
            && e@ == crate::error::ErrorV::InvalidExportKind {
                name: f.name,
                violation: violation_of(f),
            }),
{
    let ghost uv = unit@;
    let n = unit.items.len();
    proof {
        assert(uv.len() == n);
    }
    // Validation pass: find the first violating item, if any.
    let mut i: usize = 0;
    while i < n
        invariant
            i <= n,
            n == unit.items.len(),
            uv == unit@,
            forall|k: int| 0 <= k < i ==> !item_violates(#[trigger] uv[k]),
        decreases n - i,
    {
        proof {
            assert(uv[i as int] == unit.items@[i as int]@);
        }
        match &unit.items[i] {
            Item::Fn(f) => {
                if fn_is_marked(f) {
                    if !f.is_public {
                        proof {
                            lemma_first_violation_scan(uv, i as int);
                        }
                        return Err(Error::InvalidExportKind {
                            name: f.name.clone(),
                            violation: ExportViolation::NotPublic,
                        });
                    }
                    if f.abi.is_some() {
                        proof {
                            lemma_first_violation_scan(uv, i as int);
                        }
                        return Err(Error::InvalidExportKind {
                            name: f.name.clone(),
                            violation: ExportViolation::ExplicitAbi,
                        });
                    }
                }
            },
            Item::Other(_) => {},
        }
        i += 1;
    }
    proof {
        lemma_first_violation_scan(uv, n as int);
    }
    // Rewrite pass: marked functions become exports, all else passes
    // through.
    let mut new_items: Vec<Item> = Vec::new();
    let mut exports: Vec<ExportedFunction> = Vec::new();
    let mut i: usize = 0;
    proof {
        assert(uv.take(0) =~= Seq::<ItemV>::empty());
        assert(view_items(new_items@) =~= rewrite_items(uv.take(0)));
        assert(view_exports(exports@) =~= exports_of(uv.take(0)));
    }
    while i < n
        invariant
            i <= n,
            n == unit.items.len(),
            uv == unit@,
            view_items(new_items@) == rewrite_items(uv.take(i as int)),
            view_exports(exports@) == exports_of(uv.take(i as int)),
        decreases n - i,
    {
        let ghost prev_items = new_items@;
        let ghost prev_exports = exports@;
        proof {
            assert(uv[i as int] == unit.items@[i as int]@);
        }
        match &unit.items[i] {
            Item::Fn(f) => {
                if fn_is_marked(f) {
                    let kept = collect_kept_attrs(f);
                    let ex = ExportedFunction { name: f.name.clone(), original_attributes: kept };
                    proof {
                        assert(uv[i as int] == ItemV::Fn(f@));
                        assert(item_exports(uv[i as int]) =~= seq![ex@]);
                        assert(rewrite_item(uv[i as int]) == ItemV::Fn(rewritten_fn(f@)));
                    }
                    exports.push(ex);
                    new_items.push(Item::Fn(rewrite_marked_fn(f)));
                    proof {
                        assert(view_exports(exports@) =~= view_exports(prev_exports) + item_exports(
                            uv[i as int],
                        ));
                        assert(view_items(new_items@) =~= view_items(prev_items).push(
                            rewrite_item(uv[i as int]),
                        ));
                    }
                } else {
                    new_items.push(Item::Fn(f.duplicate()));
                    proof {
                        assert(uv[i as int] == ItemV::Fn(f@));
                        assert(rewrite_item(uv[i as int]) == uv[i as int]);
                        assert(view_items(new_items@) =~= view_items(prev_items).push(
                            rewrite_item(uv[i as int]),
                        ));
                        assert(view_exports(exports@) =~= view_exports(prev_exports) + item_exports(
                            uv[i as int],
                        ));
                    }
                }
            },
            Item::Other(h) => {
                new_items.push(Item::Other(*h));
                proof {
                    assert(uv[i as int] == ItemV::Other(*h));
                    assert(view_items(new_items@) =~= view_items(prev_items).push(
                        rewrite_item(uv[i as int]),
                    ));
                    assert(view_exports(exports@) =~= view_exports(prev_exports) + item_exports(
                        uv[i as int],
                    ));
                }
            },
        }
        proof {
            assert(uv.take(i + 1).drop_last() =~= uv.take(i as int));
            assert(uv.take(i + 1).last() == uv[i as int]);
            assert(exports_of(uv.take(i + 1)) == exports_of(uv.take(i as int)) + item_exports(
                uv[i as int],
            ));
            assert(rewrite_items(uv.take(i + 1)) =~= rewrite_items(uv.take(i as int)).push(
                rewrite_item(uv[i as int]),
            ));
            assert(view_items(new_items@) =~= rewrite_items(uv.take(i + 1)));
            assert(view_exports(exports@) =~= exports_of(uv.take(i + 1)));
        }
        i += 1;
    }
    proof {
        assert(uv.take(n as int) =~= uv);
    }
    unit.items = new_items;
    Ok(exports)
}

/// Running extraction on an already-rewritten compilation unit is a no-op:
/// no marker attribute remains, so nothing violates, nothing is exported,
/// and the unit is left exactly as it stands.
pub proof fn lemma_extract_idempotent(items: Seq<ItemV>)
    requires
        first_violation(items) is None,
    ensures
        first_violation(rewrite_items(items)) is None,
        exports_of(rewrite_items(items)) == Seq::<ExportedFunctionV>::empty(),
        rewrite_items(rewrite_items(items)) == rewrite_items(items),
{
    let rw = rewrite_items(items);
    assert forall|k: int| 0 <= k < rw.len() implies !item_violates(#[trigger] rw[k])
        && item_exports(rw[k]) == Seq::<ExportedFunctionV>::empty() && rewrite_item(rw[k])
        == rw[k] by {
        lemma_rewritten_item_unmarked(items[k]);
    }
    lemma_first_violation_scan(rw, rw.len() as int);
    lemma_exports_of_unmarked(rw);
    assert(rewrite_items(rw) =~= rw);
}

/// A rewritten item carries no marker: the marker attribute is removed from
/// marked functions, and an unmarked item has none to begin with.
proof fn lemma_rewritten_item_unmarked(it: ItemV)
    ensures
        !item_violates(rewrite_item(it)),
        item_exports(rewrite_item(it)) == Seq::<ExportedFunctionV>::empty(),
        rewrite_item(rewrite_item(it)) == rewrite_item(it),
{
    reveal_strlit("proc_macro");
    reveal_strlit("no_mangle");
    assert(no_mangle_path().len() != marker_path().len());
    match it {
        ItemV::Fn(f) => {
            if is_marked(f) {
                let rf = rewritten_fn(f);
                assert(rf.attrs.len() == 1);
                assert(!is_marker(rf.attrs[0]));
                assert(!is_marked(rf));
            }
        },
        ItemV::Other(_) => {},
    }
}

/// A sequence without marked functions exports nothing.
proof fn lemma_exports_of_unmarked(items: Seq<ItemV>)
    requires
        forall|k: int| 0 <= k < items.len() ==> item_exports(#[trigger] items[k])
            == Seq::<ExportedFunctionV>::empty(),
    ensures
        exports_of(items) == Seq::<ExportedFunctionV>::empty(),
    decreases items.len(),
{
    if items.len() == 0 {
    } else {
        let front = items.drop_last();
        assert forall|k: int| 0 <= k < front.len() implies item_exports(#[trigger] front[k])
            == Seq::<ExportedFunctionV>::empty() by {
            assert(front[k] == items[k]);
        }
        lemma_exports_of_unmarked(front);
        assert(exports_of(items) =~= Seq::<ExportedFunctionV>::empty());
    }
}

} // verus!
