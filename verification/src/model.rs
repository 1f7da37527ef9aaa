//! The library's model of a parsed source fragment: the compilation unit the
//! extractor rewrites, at exactly the granularity the pipeline reads.
//!
//! A caller that holds a fully parsed syntax tree converts it into these
//! types, runs the pipeline, and converts the result back. Parts the
//! pipeline never inspects (statement bodies, attribute arguments, other
//! top-level items) are carried as opaque handles into the caller's own
//! store, so nothing of them is lost across the rewrite.

use vstd::prelude::*;

verus! {

/// One lexical token, at the granularity the invocation runtime reads:
/// atoms, punctuation, and delimited groups.
#[derive(Clone, Debug, PartialEq, Eq)]
pub enum Token {
    /// An identifier or other word, as text.
    Ident(String),
    /// A literal, carried as its source text in UTF-8 bytes.
    Literal(Vec<u8>),
    /// One punctuation character.
    Punct(char),
    /// A delimited group, held as an opaque handle into the caller's store.
    Group(u64),
}

/// The mathematical image of a [`Token`].
pub enum TokenV {
    Ident(Seq<char>),
    Literal(Seq<u8>),
    Punct(char),
    Group(u64),
}

impl View for Token {
    type V = TokenV;

    open spec fn view(&self) -> TokenV {
        match self {
            Token::Ident(s) => TokenV::Ident(s@),
            Token::Literal(b) => TokenV::Literal(b@),
            Token::Punct(c) => TokenV::Punct(*c),
            Token::Group(h) => TokenV::Group(*h),
        }
    }
}

/// The image of a token sequence.
pub open spec fn view_tokens(v: Seq<Token>) -> Seq<TokenV> {
    v.map_values(|t: Token| t@)
}

/// One attribute on a top-level item: its path as text, and an opaque
/// handle under which the caller keeps the attribute's arguments.
#[derive(Clone, Debug, PartialEq, Eq)]
pub struct Attr {
    pub path: String,
    pub payload: u64,
}

/// The mathematical image of an [`Attr`].
pub struct AttrV {
    pub path: Seq<char>,
    pub payload: u64,
}

impl View for Attr {
    type V = AttrV;

    open spec fn view(&self) -> AttrV {
        AttrV { path: self.path@, payload: self.payload }
    }
}

/// The image of an attribute list.
pub open spec fn view_attrs(v: Seq<Attr>) -> Seq<AttrV> {
    v.map_values(|a: Attr| a@)
}

impl Attr {
    /// An equal attribute value.
    pub fn duplicate(&self) -> (r: Attr)
        ensures
            r@ == self@,
    {
        Attr { path: self.path.clone(), payload: self.payload }
    }
}

/// A fresh copy of a byte vector.
pub fn duplicate_bytes(v: &Vec<u8>) -> (r: Vec<u8>)
    ensures
        r@ == v@,
{
    let mut r: Vec<u8> = Vec::new();
    let mut j: usize = 0;
    while j < v.len()
        invariant
            j <= v.len(),
            r@ == v@.take(j as int),
        decreases v.len() - j,
    {
        r.push(v[j]);
        proof {
            assert(r@ =~= v@.take(j + 1));
        }
        j += 1;
    }
    proof {
        assert(v@.take(v@.len() as int) =~= v@);
    }
    r
}

/// A fresh copy of an attribute list.
pub fn duplicate_attrs(v: &Vec<Attr>) -> (r: Vec<Attr>)
    ensures
        view_attrs(r@) == view_attrs(v@),
{
    let mut r: Vec<Attr> = Vec::new();
    let mut j: usize = 0;
    proof {
        assert(view_attrs(r@) =~= view_attrs(v@.take(0)));
    }
    while j < v.len()
        invariant
            j <= v.len(),
            r@.len() == j,
            view_attrs(r@) == view_attrs(v@.take(j as int)),
        decreases v.len() - j,
    {
        let ghost pre = r@;
        r.push(v[j].duplicate());
        proof {
            assert forall|k: int| 0 <= k < j + 1 implies view_attrs(r@)[k] == view_attrs(
                v@.take(j + 1),
            )[k] by {
                assert(view_attrs(r@)[k] == r@[k]@);
                assert(view_attrs(v@.take(j + 1))[k] == v@.take(j + 1)[k]@);
                if k < j {
                    assert(r@[k] == pre[k]);
                    assert(pre[k]@ == view_attrs(pre)[k]);
                    assert(view_attrs(v@.take(j as int))[k] == v@.take(j as int)[k]@);
                }
            }
            assert(view_attrs(r@) =~= view_attrs(v@.take(j + 1)));
        }
        j += 1;
    }
    proof {
        assert(v@.take(v@.len() as int) =~= v@);
    }
    r
}

/// One statement of a function body: either the panic-containment hook the
/// extractor injects, or an opaque handle to a caller-kept statement.
#[derive(Clone, Copy, PartialEq, Eq, Structural, Debug)]
pub enum Stmt {
    /// The injected hook that turns a failure inside the sandboxed function
    /// into a recoverable signal.
    PanicHook,
    /// A statement the pipeline never reads, as a handle into the caller's
    /// store.
    Opaque(u64),
}

/// One top-level function of a compilation unit, at the granularity the
/// extractor reads and rewrites.
#[derive(Clone, Debug, PartialEq, Eq)]
pub struct FnDecl {
    pub name: String,
    pub is_public: bool,
    /// The explicit calling-convention annotation, if any, as its text.
    pub abi: Option<String>,
    pub attrs: Vec<Attr>,
    pub body: Vec<Stmt>,
}

/// The mathematical image of a [`FnDecl`].
pub struct FnDeclV {
    pub name: Seq<char>,
    pub is_public: bool,
    pub abi: Option<Seq<char>>,
    pub attrs: Seq<AttrV>,
    pub body: Seq<Stmt>,
}

impl View for FnDecl {
    type V = FnDeclV;

    open spec fn view(&self) -> FnDeclV {
        FnDeclV {
            name: self.name@,
            is_public: self.is_public,
            abi: match &self.abi {
                Some(a) => Some(a@),
                None => None,
            },
            attrs: view_attrs(self.attrs@),
            body: self.body@,
        }
    }
}

/// A fresh copy of a statement list.
pub fn duplicate_stmts(v: &Vec<Stmt>) -> (r: Vec<Stmt>)
    ensures
        r@ == v@,
{
    let mut r: Vec<Stmt> = Vec::new();
    let mut j: usize = 0;
    while j < v.len()
        invariant
            j <= v.len(),
            r@ == v@.take(j as int),
        decreases v.len() - j,
    {
        r.push(v[j]);
        proof {
            assert(r@ =~= v@.take(j + 1));
        }
        j += 1;
    }
    proof {
        assert(v@.take(v@.len() as int) =~= v@);
    }
    r
}

impl FnDecl {
    /// An equal function value.
    pub fn duplicate(&self) -> (r: FnDecl)
        ensures
            r@ == self@,
    {
        let abi = match &self.abi {
            Some(a) => Some(a.clone()),
            None => None,
        };
        FnDecl {
            name: self.name.clone(),
            is_public: self.is_public,
            abi,
            attrs: duplicate_attrs(&self.attrs),
            body: duplicate_stmts(&self.body),
        }
    }
}

/// One top-level item: a function, or anything else as an opaque handle.
#[derive(Clone, Debug, PartialEq, Eq)]
pub enum Item {
    Fn(FnDecl),
    Other(u64),
}

/// The mathematical image of an [`Item`].
pub enum ItemV {
    Fn(FnDeclV),
    Other(u64),
}

impl View for Item {
    type V = ItemV;

    open spec fn view(&self) -> ItemV {
        match self {
            Item::Fn(f) => ItemV::Fn(f@),
            Item::Other(h) => ItemV::Other(*h),
        }
    }
}

impl Item {
    /// An equal item value.
    pub fn duplicate(&self) -> (r: Item)
        ensures
            r@ == self@,
    {
        match self {
            Item::Fn(f) => Item::Fn(f.duplicate()),
            Item::Other(h) => Item::Other(*h),
        }
    }
}

impl Token {
    /// An equal token value.
    pub fn duplicate(&self) -> (r: Token)
        ensures
            r@ == self@,
    {
        match self {
            Token::Ident(s) => Token::Ident(s.clone()),
            Token::Literal(b) => Token::Literal(duplicate_bytes(b)),
            Token::Punct(c) => Token::Punct(*c),
            Token::Group(h) => Token::Group(*h),
        }
    }
}

/// The image of an item list.
pub open spec fn view_items(v: Seq<Item>) -> Seq<ItemV> {
    v.map_values(|it: Item| it@)
}

/// An ordered sequence of top-level items from a parsed source fragment.
#[derive(Clone, Debug, PartialEq, Eq)]
pub struct CompilationUnit {
    pub items: Vec<Item>,
}

impl View for CompilationUnit {
    type V = Seq<ItemV>;

    open spec fn view(&self) -> Seq<ItemV> {
        view_items(self.items@)
    }
}

/// One function the extractor found marked exportable: its name, and the
/// attributes that stood beside the marker, in order, for reattachment to
/// the generated dispatch binding.
#[derive(Clone, Debug, PartialEq, Eq)]
pub struct ExportedFunction {
    pub name: String,
    pub original_attributes: Vec<Attr>,
}

/// The mathematical image of an [`ExportedFunction`].
pub struct ExportedFunctionV {
    pub name: Seq<char>,
    pub original_attributes: Seq<AttrV>,
}

impl View for ExportedFunction {
    type V = ExportedFunctionV;

    open spec fn view(&self) -> ExportedFunctionV {
        ExportedFunctionV {
            name: self.name@,
            original_attributes: view_attrs(self.original_attributes@),
        }
    }
}

/// The image of an exported-function list.
pub open spec fn view_exports(v: Seq<ExportedFunction>) -> Seq<ExportedFunctionV> {
    v.map_values(|e: ExportedFunction| e@)
}

} // verus!
