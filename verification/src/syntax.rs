//! The plain-data syntax tree that the generator reads and writes: flat
//! token runs for types and expressions, and records for attributes,
//! generic parameters, members and struct declarations.

use crate::diag::Span;
use vstd::prelude::*;
use vstd::string::StringExecFns;

verus! {

/// A value that can be copied deeply, keeping its mathematical content.
pub trait Dup: DeepView + Sized {
    fn dup(&self) -> (r: Self)
        ensures
            r.deep_view() == self.deep_view(),
    ;
}

impl Dup for String {
    fn dup(&self) -> (r: String) {
        self.clone()
    }
}

/// Deep copy of a vector, element by element.
pub fn dup_vec<T: Dup>(v: &Vec<T>) -> (r: Vec<T>)
    ensures
        r.deep_view() == v.deep_view(),
{
    let mut r: Vec<T> = Vec::new();
    let mut i: usize = 0;
    while i < v.len()
        invariant
            i <= v.len(),
            r.len() == i,
            forall|j: int| 0 <= j < i ==> r[j].deep_view() == v[j].deep_view(),
        decreases v.len() - i,
    {
        r.push(v[i].dup());
        i += 1;
    }
    assert(r.deep_view() =~= v.deep_view());
    r
}

/// Deep copy of an optional value.
pub fn dup_opt<T: Dup>(v: &Option<T>) -> (r: Option<T>)
    ensures
        r.deep_view() == v.deep_view(),
{
    match v {
        Some(x) => Some(x.dup()),
        None => None,
    }
}

impl<T: Dup> Dup for Vec<T> {
    fn dup(&self) -> (r: Vec<T>) {
        dup_vec(self)
    }
}

#[derive(Clone, Copy, Debug, PartialEq, Eq, Structural)]
pub enum TokenKind {
    Ident,
    Lifetime,
    Punct,
    Literal,
    Open,
    Close,
}

/// One lexical token: its class and its spelling.
#[derive(Clone, Debug, PartialEq, Eq)]
pub struct Token {
    pub kind: TokenKind,
    pub text: String,
}

pub ghost struct TokenV {
    pub kind: TokenKind,
    pub text: Seq<char>,
}

impl DeepView for Token {
    type V = TokenV;

    open spec fn deep_view(&self) -> TokenV {
        TokenV { kind: self.kind, text: self.text@ }
    }
}

impl Dup for Token {
    fn dup(&self) -> (r: Token) {
        Token { kind: self.kind, text: self.text.clone() }
    }
}

impl Token {
    /// A token of the given class spelled `text`.
    pub fn new(kind: TokenKind, text: &str) -> (t: Token)
        ensures
            t.deep_view() == (TokenV { kind, text: text@ }),
    {
        Token { kind, text: String::from_str(text) }
    }
}

#[derive(Clone, Copy, Debug, PartialEq, Eq, Structural)]
pub enum Visibility {
    Inherited,
    Public,
    Crate,
}

/// One item of an attribute's argument list: a key, and the tokens after
/// `=` where a value was written.
#[derive(Clone, Debug, PartialEq, Eq)]
pub struct MetaOption {
    pub key: String,
    pub value: Option<Vec<Token>>,
    pub span: Span,
}

pub ghost struct MetaOptionV {
    pub key: Seq<char>,
    pub value: Option<Seq<TokenV>>,
    pub span: Span,
}

impl DeepView for MetaOption {
    type V = MetaOptionV;

    open spec fn deep_view(&self) -> MetaOptionV {
        MetaOptionV { key: self.key@, value: self.value.deep_view(), span: self.span }
    }
}

impl Dup for MetaOption {
    fn dup(&self) -> (r: MetaOption) {
        MetaOption { key: self.key.clone(), value: dup_opt(&self.value), span: self.span }
    }
}

/// An attribute: its path, segment by segment, what follows the path as
/// it was written, and the same read as a list of options where it is
/// one.
#[derive(Clone, Debug, PartialEq, Eq)]
pub struct Attribute {
    pub path: Vec<String>,
    pub args: Vec<Token>,
    pub options: Vec<MetaOption>,
}

pub ghost struct AttributeV {
    pub path: Seq<Seq<char>>,
    pub args: Seq<TokenV>,
    pub options: Seq<MetaOptionV>,
}

impl DeepView for Attribute {
    type V = AttributeV;

    open spec fn deep_view(&self) -> AttributeV {
        AttributeV {
            path: self.path.deep_view(),
            args: self.args.deep_view(),
            options: self.options.deep_view(),
        }
    }
}

impl Dup for Attribute {
    fn dup(&self) -> (r: Attribute) {
        Attribute {
            path: dup_vec(&self.path),
            args: dup_vec(&self.args),
            options: dup_vec(&self.options),
        }
    }
}

#[derive(Clone, Copy, Debug, PartialEq, Eq, Structural)]
pub enum ParamKind {
    Lifetime,
    Type,
    Const,
}

/// A generic binder: its kind, its name and whatever follows the name in
/// the declaration (bounds, or the type of a constant).
#[derive(Clone, Debug, PartialEq, Eq)]
pub struct GenericParam {
    pub kind: ParamKind,
    pub name: String,
    pub bounds: Vec<Token>,
}

pub ghost struct GenericParamV {
    pub kind: ParamKind,
    pub name: Seq<char>,
    pub bounds: Seq<TokenV>,
}

impl DeepView for GenericParam {
    type V = GenericParamV;

    open spec fn deep_view(&self) -> GenericParamV {
        GenericParamV { kind: self.kind, name: self.name@, bounds: self.bounds.deep_view() }
    }
}

impl Dup for GenericParam {
    fn dup(&self) -> (r: GenericParam) {
        GenericParam { kind: self.kind, name: self.name.clone(), bounds: dup_vec(&self.bounds) }
    }
}

/// One member of a struct body.
#[derive(Clone, Debug, PartialEq, Eq)]
pub struct Member {
    pub attrs: Vec<Attribute>,
    pub name: Option<String>,
    pub ty: Vec<Token>,
    pub span: Span,
}

pub ghost struct MemberV {
    pub attrs: Seq<AttributeV>,
    pub name: Option<Seq<char>>,
    pub ty: Seq<TokenV>,
    pub span: Span,
}

impl DeepView for Member {
    type V = MemberV;

    open spec fn deep_view(&self) -> MemberV {
        MemberV {
            attrs: self.attrs.deep_view(),
            name: self.name.deep_view(),
            ty: self.ty.deep_view(),
            span: self.span,
        }
    }
}

impl Dup for Member {
    fn dup(&self) -> (r: Member) {
        Member {
            attrs: dup_vec(&self.attrs),
            name: dup_opt(&self.name),
            ty: dup_vec(&self.ty),
            span: self.span,
        }
    }
}

/// The three shapes a struct body can take.
#[derive(Clone, Debug, PartialEq, Eq)]
pub enum FieldsShape {
    Named(Vec<Member>),
    Unnamed(Vec<Member>),
    Unit,
}

pub ghost enum FieldsShapeV {
    Named(Seq<MemberV>),
    Unnamed(Seq<MemberV>),
    Unit,
}

impl DeepView for FieldsShape {
    type V = FieldsShapeV;

    open spec fn deep_view(&self) -> FieldsShapeV {
        match self {
            FieldsShape::Named(ms) => FieldsShapeV::Named(ms.deep_view()),
            FieldsShape::Unnamed(ms) => FieldsShapeV::Unnamed(ms.deep_view()),
            FieldsShape::Unit => FieldsShapeV::Unit,
        }
    }
}

impl Dup for FieldsShape {
    fn dup(&self) -> (r: FieldsShape) {
        match self {
            FieldsShape::Named(ms) => FieldsShape::Named(dup_vec(ms)),
            FieldsShape::Unnamed(ms) => FieldsShape::Unnamed(dup_vec(ms)),
            FieldsShape::Unit => FieldsShape::Unit,
        }
    }
}

/// A struct declaration as the generator sees it.
#[derive(Clone, Debug, PartialEq, Eq)]
pub struct StructDecl {
    pub attrs: Vec<Attribute>,
    pub vis: Visibility,
    pub name: String,
    pub generics: Vec<GenericParam>,
    pub where_clause: Option<Vec<Token>>,
    pub fields: FieldsShape,
    pub span: Span,
}

pub ghost struct StructDeclV {
    pub attrs: Seq<AttributeV>,
    pub vis: Visibility,
    pub name: Seq<char>,
    pub generics: Seq<GenericParamV>,
    pub where_clause: Option<Seq<TokenV>>,
    pub fields: FieldsShapeV,
    pub span: Span,
}

impl DeepView for StructDecl {
    type V = StructDeclV;

    open spec fn deep_view(&self) -> StructDeclV {
        StructDeclV {
            attrs: self.attrs.deep_view(),
            vis: self.vis,
            name: self.name@,
            generics: self.generics.deep_view(),
            where_clause: self.where_clause.deep_view(),
            fields: self.fields.deep_view(),
            span: self.span,
        }
    }
}

impl Dup for StructDecl {
    fn dup(&self) -> (r: StructDecl) {
        StructDecl {
            attrs: dup_vec(&self.attrs),
            vis: self.vis,
            name: self.name.clone(),
            generics: dup_vec(&self.generics),
            where_clause: dup_opt(&self.where_clause),
            fields: self.fields.dup(),
            span: self.span,
        }
    }
}

} // verus!
