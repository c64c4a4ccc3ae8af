//! Rewriting of the self type: every `Self` in a declaration is replaced
//! by the declaration's own type with its generic arguments applied, so
//! that the text keeps its meaning outside of the declaration.

use crate::syntax::{
    dup_opt, dup_vec, Dup, FieldsShape, FieldsShapeV, GenericParam, GenericParamV, Member,
    MemberV, StructDecl, StructDeclV, Token, TokenKind, TokenV,
};
use vstd::prelude::*;
use vstd::string::StringExecFns;

verus! {

/// Whether a token is the self type.
pub open spec fn is_self(t: TokenV) -> bool {
    t.kind == TokenKind::Ident && t.text == "Self"@
}

/// Whether a run of tokens mentions the self type nowhere.
pub open spec fn self_free(ts: Seq<TokenV>) -> bool {
    forall|i: int| 0 <= i < ts.len() ==> !is_self(#[trigger] ts[i])
}

/// `ts` with every self type token replaced by the run `ty`.
pub open spec fn subst_self(ts: Seq<TokenV>, ty: Seq<TokenV>) -> Seq<TokenV>
    decreases ts.len(),
{
    if ts.len() == 0 {
        Seq::empty()
    } else {
        subst_self(ts.drop_last(), ty) + (if is_self(ts.last()) {
            ty
        } else {
            seq![ts.last()]
        })
    }
}

pub open spec fn subst_self_opt(ts: Option<Seq<TokenV>>, ty: Seq<TokenV>) -> Option<Seq<TokenV>> {
    match ts {
        Some(ts) => Some(subst_self(ts, ty)),
        None => None,
    }
}

pub open spec fn normalize_param(p: GenericParamV, ty: Seq<TokenV>) -> GenericParamV {
    GenericParamV { kind: p.kind, name: p.name, bounds: subst_self(p.bounds, ty) }
}

pub open spec fn normalize_params(ps: Seq<GenericParamV>, ty: Seq<TokenV>) -> Seq<GenericParamV> {
    Seq::new(ps.len(), |i: int| normalize_param(ps[i], ty))
}

pub open spec fn normalize_member(m: MemberV, ty: Seq<TokenV>) -> MemberV {
    MemberV { attrs: m.attrs, name: m.name, ty: subst_self(m.ty, ty), span: m.span }
}

pub open spec fn normalize_members(ms: Seq<MemberV>, ty: Seq<TokenV>) -> Seq<MemberV> {
    Seq::new(ms.len(), |i: int| normalize_member(ms[i], ty))
}

pub open spec fn normalize_fields(f: FieldsShapeV, ty: Seq<TokenV>) -> FieldsShapeV {
    match f {
        FieldsShapeV::Named(ms) => FieldsShapeV::Named(normalize_members(ms, ty)),
        FieldsShapeV::Unnamed(ms) => FieldsShapeV::Unnamed(normalize_members(ms, ty)),
        FieldsShapeV::Unit => FieldsShapeV::Unit,
    }
}

/// The declaration with the self type rewritten in the member types, in
/// the bounds of the generic parameters and in the where clause.
pub open spec fn normalize_struct(s: StructDeclV, ty: Seq<TokenV>) -> StructDeclV {
    StructDeclV {
        attrs: s.attrs,
        vis: s.vis,
        name: s.name,
        generics: normalize_params(s.generics, ty),
        where_clause: subst_self_opt(s.where_clause, ty),
        fields: normalize_fields(s.fields, ty),
        span: s.span,
    }
}

/// Substitution distributes over appending one token.
pub proof fn lemma_subst_push(ts: Seq<TokenV>, t: TokenV, ty: Seq<TokenV>)
    ensures
        subst_self(ts.push(t), ty) == subst_self(ts, ty) + (if is_self(t) {
            ty
        } else {
            seq![t]
        }),
{
    assert(ts.push(t).drop_last() =~= ts);
}

/// After the rewriting no self type is left, provided the replacement
/// holds none itself.
pub proof fn lemma_subst_self_free(ts: Seq<TokenV>, ty: Seq<TokenV>)
    requires
        self_free(ty),
    ensures
        self_free(subst_self(ts, ty)),
    decreases ts.len(),
{
    if ts.len() > 0 {
        lemma_subst_self_free(ts.drop_last(), ty);
    }
}

/// Text without a self type is left as it is.
pub proof fn lemma_subst_identity(ts: Seq<TokenV>, ty: Seq<TokenV>)
    requires
        self_free(ts),
    ensures
        subst_self(ts, ty) == ts,
    decreases ts.len(),
{
    if ts.len() > 0 {
        lemma_subst_identity(ts.drop_last(), ty);
        assert(ts.drop_last() + seq![ts.last()] =~= ts);
    } else {
        assert(ts =~= Seq::empty());
    }
}

/// Rewriting twice is rewriting once: text read from the rewritten
/// declaration and text rewritten again where it is spliced elsewhere
/// are the same.
pub proof fn lemma_subst_idempotent(ts: Seq<TokenV>, ty: Seq<TokenV>)
    requires
        self_free(ty),
    ensures
        subst_self(subst_self(ts, ty), ty) == subst_self(ts, ty),
{
    lemma_subst_self_free(ts, ty);
    lemma_subst_identity(subst_self(ts, ty), ty);
}

/// Appends a deep copy of `src` to `dst`.
pub fn push_all(dst: &mut Vec<Token>, src: &Vec<Token>)
    ensures
        final(dst).deep_view() == old(dst).deep_view() + src.deep_view(),
{
    let ghost start = dst.deep_view();
    let mut j: usize = 0;
    while j < src.len()
        invariant
            j <= src.len(),
            dst.deep_view() == start + src.deep_view().take(j as int),
        decreases src.len() - j,
    {
        let ghost before = dst.deep_view();
        dst.push(src[j].dup());
        proof {
            assert(dst.deep_view() =~= before.push(src[j as int].deep_view()));
            assert(src.deep_view().take(j + 1) =~= src.deep_view().take(j as int).push(
                src[j as int].deep_view(),
            ));
            assert(dst.deep_view() =~= start + src.deep_view().take(j + 1));
        }
        j += 1;
    }
    assert(src.deep_view().take(j as int) =~= src.deep_view());
}

/// Whether `t` is the self type.
pub fn token_is_self(t: &Token) -> (b: bool)
    ensures
        b == is_self(t.deep_view()),
{
    let word = String::from_str("Self");
    match t.kind {
        TokenKind::Ident => t.text == word,
        _ => false,
    }
}

/// Rewrites the self type in a run of tokens.
pub fn normalize_tokens(ts: &Vec<Token>, self_ty: &Vec<Token>) -> (r: Vec<Token>)
    ensures
        r.deep_view() == subst_self(ts.deep_view(), self_ty.deep_view()),
{
    let mut r: Vec<Token> = Vec::new();
    let mut i: usize = 0;
    assert(r.deep_view() =~= Seq::empty());
    assert(ts.deep_view().take(0) =~= Seq::empty());
    while i < ts.len()
        invariant
            i <= ts.len(),
            r.deep_view() == subst_self(ts.deep_view().take(i as int), self_ty.deep_view()),
        decreases ts.len() - i,
    {
        let ghost before = r.deep_view();
        proof {
            lemma_subst_push(
                ts.deep_view().take(i as int),
                ts[i as int].deep_view(),
                self_ty.deep_view(),
            );
            assert(ts.deep_view().take(i + 1) =~= ts.deep_view().take(i as int).push(
                ts[i as int].deep_view(),
            ));
        }
        if token_is_self(&ts[i]) {
            push_all(&mut r, self_ty);
        } else {
            r.push(ts[i].dup());
            assert(r.deep_view() =~= before + seq![ts[i as int].deep_view()]);
        }
        i += 1;
    }
    assert(ts.deep_view().take(i as int) =~= ts.deep_view());
    r
}

/// Rewrites the self type in an optional run of tokens.
pub fn normalize_tokens_opt(ts: &Option<Vec<Token>>, self_ty: &Vec<Token>) -> (r: Option<
    Vec<Token>,
>)
    ensures
        r.deep_view() == subst_self_opt(ts.deep_view(), self_ty.deep_view()),
{
    match ts {
        Some(ts) => Some(normalize_tokens(ts, self_ty)),
        None => None,
    }
}

/// Rewrites the self type in the bounds of each generic parameter.
pub fn normalize_generics(ps: &Vec<GenericParam>, self_ty: &Vec<Token>) -> (r: Vec<GenericParam>)
    ensures
        r.deep_view() == normalize_params(ps.deep_view(), self_ty.deep_view()),
{
    let mut r: Vec<GenericParam> = Vec::new();
    let mut i: usize = 0;
    while i < ps.len()
        invariant
            i <= ps.len(),
            r.len() == i,
            forall|j: int|
                0 <= j < i ==> r[j].deep_view() == normalize_param(
                    ps[j].deep_view(),
                    self_ty.deep_view(),
                ),
        decreases ps.len() - i,
    {
        let p = &ps[i];
        r.push(
            GenericParam {
                kind: p.kind,
                name: p.name.clone(),
                bounds: normalize_tokens(&p.bounds, self_ty),
            },
        );
        i += 1;
    }
    assert(r.deep_view() =~= normalize_params(ps.deep_view(), self_ty.deep_view()));
    r
}

/// Rewrites the self type in the type of each member.
pub fn normalize_member_list(ms: &Vec<Member>, self_ty: &Vec<Token>) -> (r: Vec<Member>)
    ensures
        r.deep_view() == normalize_members(ms.deep_view(), self_ty.deep_view()),
{
    let mut r: Vec<Member> = Vec::new();
    let mut i: usize = 0;
    while i < ms.len()
        invariant
            i <= ms.len(),
            r.len() == i,
            forall|j: int|
                0 <= j < i ==> r[j].deep_view() == normalize_member(
                    ms[j].deep_view(),
                    self_ty.deep_view(),
                ),
        decreases ms.len() - i,
    {
        let m = &ms[i];
        r.push(
            Member {
                attrs: dup_vec(&m.attrs),
                name: dup_opt(&m.name),
                ty: normalize_tokens(&m.ty, self_ty),
                span: m.span,
            },
        );
        i += 1;
    }
    assert(r.deep_view() =~= normalize_members(ms.deep_view(), self_ty.deep_view()));
    r
}

/// A copy of the declaration with the self type rewritten to `self_ty`.
pub fn normalize_decl(s: &StructDecl, self_ty: &Vec<Token>) -> (r: StructDecl)
    ensures
        r.deep_view() == normalize_struct(s.deep_view(), self_ty.deep_view()),
{
    let fields = match &s.fields {
        FieldsShape::Named(ms) => FieldsShape::Named(normalize_member_list(ms, self_ty)),
        FieldsShape::Unnamed(ms) => FieldsShape::Unnamed(normalize_member_list(ms, self_ty)),
        FieldsShape::Unit => FieldsShape::Unit,
    };
    StructDecl {
        attrs: dup_vec(&s.attrs),
        vis: s.vis,
        name: s.name.clone(),
        generics: normalize_generics(&s.generics, self_ty),
        where_clause: normalize_tokens_opt(&s.where_clause, self_ty),
        fields,
        span: s.span,
    }
}

} // verus!
