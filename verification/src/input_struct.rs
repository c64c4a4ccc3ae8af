//! The struct adapter: reads a struct declaration with its options and
//! produces the description that the builder is generated from.

use crate::builder_gen::{
    ident_tok, punct_tok, push_token, BuilderGenCtx, BuilderGenCtxV, FinishBody, FinishBodyV,
    FinishFunc, FinishFuncV,
    Generics, GenericsV, Receiver, StartFunc, StartFuncV, StructLiteralBody, StructLiteralBodyV,
};
use crate::diag::{fail, Diagnostic, ErrorKind};
use crate::field::{
    attr_is_builder, field_of, field_result_view, is_builder_attr, Field, FieldV,
};
use crate::normalize::{
    is_self, normalize_decl, normalize_struct, push_all, self_free, token_is_self,
};
use crate::params::{ItemParams, StructInputParams, StructInputParamsV};
use crate::syntax::{
    dup_opt, dup_vec, Attribute, AttributeV, Dup, FieldsShape, FieldsShapeV, GenericParam,
    GenericParamV, Member, MemberV, ParamKind, StructDecl, StructDeclV, Token, TokenKind, TokenV,
    Visibility,
};
use vstd::prelude::*;
use vstd::string::StringExecFns;

verus! {

/// The argument that stands for a generic parameter where the type is
/// applied: the bare name, as a lifetime or as an identifier.
pub open spec fn param_arg(p: GenericParamV) -> TokenV {
    TokenV {
        kind: if p.kind == ParamKind::Lifetime {
            TokenKind::Lifetime
        } else {
            TokenKind::Ident
        },
        text: p.name,
    }
}

/// The arguments of all parameters, separated by commas.
pub open spec fn arg_list(ps: Seq<GenericParamV>) -> Seq<TokenV>
    decreases ps.len(),
{
    if ps.len() == 0 {
        Seq::empty()
    } else if ps.len() == 1 {
        seq![param_arg(ps[0])]
    } else {
        arg_list(ps.drop_last()) + seq![punct_tok(","@), param_arg(ps.last())]
    }
}

/// `Name<args>`: the declared type with its own parameters applied.
pub open spec fn applied_type(name: Seq<char>, ps: Seq<GenericParamV>) -> Seq<TokenV> {
    seq![ident_tok(name), punct_tok("<"@)] + arg_list(ps) + seq![punct_tok(">"@)]
}

/// The attributes of a list that do not configure the builder.
pub open spec fn strip_builder_attrs(attrs: Seq<AttributeV>) -> Seq<AttributeV>
    decreases attrs.len(),
{
    if attrs.len() == 0 {
        Seq::empty()
    } else {
        strip_builder_attrs(attrs.drop_last()) + (if is_builder_attr(attrs.last()) {
            Seq::empty()
        } else {
            seq![attrs.last()]
        })
    }
}

pub open spec fn strip_member(m: MemberV) -> MemberV {
    MemberV { attrs: strip_builder_attrs(m.attrs), name: m.name, ty: m.ty, span: m.span }
}

pub open spec fn strip_members(ms: Seq<MemberV>) -> Seq<MemberV> {
    Seq::new(ms.len(), |i: int| strip_member(ms[i]))
}

pub open spec fn strip_fields(f: FieldsShapeV) -> FieldsShapeV {
    match f {
        FieldsShapeV::Named(ms) => FieldsShapeV::Named(strip_members(ms)),
        FieldsShapeV::Unnamed(ms) => FieldsShapeV::Unnamed(strip_members(ms)),
        FieldsShapeV::Unit => FieldsShapeV::Unit,
    }
}

/// The declaration as it is handed back: the same, without the
/// attributes that configure the builder, on the struct and on its members.
pub open spec fn strip_struct(s: StructDeclV) -> StructDeclV {
    StructDeclV {
        attrs: strip_builder_attrs(s.attrs),
        vis: s.vis,
        name: s.name,
        generics: s.generics,
        where_clause: s.where_clause,
        fields: strip_fields(s.fields),
        span: s.span,
    }
}

/// The fields of a list of members, or the failure of the first member
/// that yields none.
pub open spec fn collect_fields(ms: Seq<MemberV>) -> Result<Seq<FieldV>, Diagnostic>
    decreases ms.len(),
{
    if ms.len() == 0 {
        Ok(Seq::empty())
    } else {
        match collect_fields(ms.drop_last()) {
            Ok(fs) => match field_of(ms.last()) {
                Ok(f) => Ok(fs.push(f)),
                Err(e) => Err(e),
            },
            Err(e) => Err(e),
        }
    }
}

/// The name of the builder type: the configured one, else the name of
/// the struct followed by `Builder`.
pub open spec fn builder_name(params: StructInputParamsV, name: Seq<char>) -> Seq<char> {
    match params.base.builder_type {
        Some(n) => n,
        None => name + "Builder"@,
    }
}

/// The name of the method that opens the chain.
pub open spec fn start_name(params: StructInputParamsV) -> Seq<char> {
    match params.start_fn {
        Some(item) => match item.name {
            Some(n) => n,
            None => "builder"@,
        },
        None => "builder"@,
    }
}

/// The visibility asked for the method that opens the chain.
pub open spec fn start_vis(params: StructInputParamsV) -> Option<Visibility> {
    match params.start_fn {
        Some(item) => item.vis,
        None => None,
    }
}

/// The name of the method that closes the chain.
pub open spec fn finish_name(params: StructInputParamsV) -> Seq<char> {
    match params.base.finish_fn {
        Some(n) => n,
        None => "build"@,
    }
}

/// The description of the builder for a struct, given its fields.
pub open spec fn struct_builder_ctx(s: StructInputCtxV, fields: Seq<FieldV>) -> BuilderGenCtxV {
    let b = builder_name(s.params, s.norm_struct.name);
    BuilderGenCtxV {
        fields,
        builder_ident: b,
        builder_private_impl_ident: "__"@ + b + "PrivateImpl"@,
        builder_state_trait_ident: "__"@ + b + "State"@,
        receiver: Receiver::Absent,
        generics: GenericsV {
            params: s.norm_struct.generics,
            where_clause: s.norm_struct.where_clause,
        },
        vis: s.norm_struct.vis,
        start_func: StartFuncV {
            ident: start_name(s.params),
            vis: start_vis(s.params),
            docs: "Use builder syntax to create an instance of [`"@ + s.norm_struct.name + "`]"@,
            generics: None,
        },
        finish_func: FinishFuncV {
            ident: finish_name(s.params),
            is_unsafe: false,
            is_async: false,
            body: FinishBodyV::StructLiteral(
                StructLiteralBodyV { struct_ident: s.norm_struct.name },
            ),
            output: seq![punct_tok("->"@)] + s.struct_ty,
        },
    }
}

/// What the struct adapter yields: the builder's description where the
/// struct has named fields and each of them makes a field, else the
/// failure.
pub open spec fn struct_builder(s: StructInputCtxV) -> Result<BuilderGenCtxV, Diagnostic> {
    match s.norm_struct.fields {
        FieldsShapeV::Named(ms) => match collect_fields(ms) {
            Ok(fs) => Ok(struct_builder_ctx(s, fs)),
            Err(e) => Err(e),
        },
        _ => Err(fail(ErrorKind::UnsupportedFields, s.norm_struct.span)),
    }
}

/// A failure on a prefix of the members is the failure of the whole list.
pub proof fn lemma_collect_prefix_err(ms: Seq<MemberV>, k: int)
    requires
        0 <= k <= ms.len(),
        collect_fields(ms.take(k)) is Err,
    ensures
        collect_fields(ms) == collect_fields(ms.take(k)),
    decreases ms.len() - k,
{
    if k < ms.len() {
        assert(ms.take(k + 1).drop_last() =~= ms.take(k));
        lemma_collect_prefix_err(ms, k + 1);
    } else {
        assert(ms.take(k) =~= ms);
    }
}

/// While every member makes a field, the fields come out in the order of
/// the members.
pub proof fn lemma_collect_all_ok(ms: Seq<MemberV>, k: int)
    requires
        0 <= k <= ms.len(),
        forall|j: int| 0 <= j < k ==> (#[trigger] field_of(ms[j])) is Ok,
    ensures
        collect_fields(ms.take(k)) == Ok::<Seq<FieldV>, Diagnostic>(
            Seq::new(k as nat, |j: int| field_of(ms[j])->Ok_0),
        ),
    decreases k,
{
    if k > 0 {
        lemma_collect_all_ok(ms, k - 1);
        assert(ms.take(k).drop_last() =~= ms.take(k - 1));
        assert(ms.take(k).last() == ms[k - 1]);
        assert(Seq::new((k - 1) as nat, |j: int| field_of(ms[j])->Ok_0).push(
            field_of(ms[k - 1])->Ok_0,
        ) =~= Seq::new(k as nat, |j: int| field_of(ms[j])->Ok_0));
    } else {
        assert(ms.take(0) =~= Seq::empty());
        assert(Seq::new(0 as nat, |j: int| field_of(ms[j])->Ok_0) =~= Seq::<FieldV>::empty());
    }
}

/// `itertools::Itertools::try_collect` on the results of a vector, into a
/// vector. It is `collect` into a `Result`: where every result is `Ok`,
/// the values come back in their order; otherwise the first `Err` of the
/// vector comes back.
#[verifier::external_body]
fn try_collect_vec<T, E>(results: Vec<Result<T, E>>) -> (out: Result<Vec<T>, E>)
    ensures
        match out {
            Ok(items) => items.len() == results.len() && forall|i: int|
                #![trigger results[i]]
                #![trigger items[i]]
                0 <= i < results.len() ==> results[i] == Ok::<T, E>(items[i]),
            Err(e) => exists|k: int|
                0 <= k < results.len() && #[trigger] results[k] == Err::<T, E>(e) && forall|j: int|
                    0 <= j < k ==> (#[trigger] results[j]) is Ok,
        },
{
    itertools::Itertools::try_collect(results.into_iter())
}

/// A struct input: the declaration as written, the same with the self
/// type rewritten, the options, and the struct's own type.
#[derive(Clone, Debug, PartialEq, Eq)]
pub struct StructInputCtx {
    pub orig_struct: StructDecl,
    pub norm_struct: StructDecl,
    pub params: StructInputParams,
    pub struct_ty: Vec<Token>,
}

pub ghost struct StructInputCtxV {
    pub orig_struct: StructDeclV,
    pub norm_struct: StructDeclV,
    pub params: StructInputParamsV,
    pub struct_ty: Seq<TokenV>,
}

impl DeepView for StructInputCtx {
    type V = StructInputCtxV;

    open spec fn deep_view(&self) -> StructInputCtxV {
        StructInputCtxV {
            orig_struct: self.orig_struct.deep_view(),
            norm_struct: self.norm_struct.deep_view(),
            params: self.params.deep_view(),
            struct_ty: self.struct_ty.deep_view(),
        }
    }
}

/// The input that `new` makes of a declaration and its options.
pub open spec fn struct_input(params: StructInputParamsV, orig: StructDeclV) -> StructInputCtxV {
    let ty = applied_type(orig.name, orig.generics);
    StructInputCtxV {
        orig_struct: orig,
        norm_struct: normalize_struct(orig, ty),
        params,
        struct_ty: ty,
    }
}

/// The argument that stands for a generic parameter.
pub fn generic_param_to_arg(p: &GenericParam) -> (t: Token)
    ensures
        t.deep_view() == param_arg(p.deep_view()),
{
    match p.kind {
        ParamKind::Lifetime => Token { kind: TokenKind::Lifetime, text: p.name.clone() },
        _ => Token { kind: TokenKind::Ident, text: p.name.clone() },
    }
}

/// Writes `Name<args>` for a name and its generic parameters.
pub fn make_applied_type(name: &String, ps: &Vec<GenericParam>) -> (ty: Vec<Token>)
    ensures
        ty.deep_view() == applied_type(name@, ps.deep_view()),
{
    let ghost all = ps.deep_view();
    let mut ty: Vec<Token> = Vec::new();
    assert(ty.deep_view() =~= Seq::empty());
    push_token(&mut ty, TokenKind::Ident, name.as_str());
    push_token(&mut ty, TokenKind::Punct, "<");
    let ghost head = seq![ident_tok(name@), punct_tok("<"@)];
    assert(ty.deep_view() =~= head);
    assert(all.take(0) =~= Seq::empty());
    let mut i: usize = 0;
    while i < ps.len()
        invariant
            i <= ps.len(),
            all == ps.deep_view(),
            ty.deep_view() == head + arg_list(all.take(i as int)),
        decreases ps.len() - i,
    {
        proof {
            assert(all.take(i + 1).drop_last() =~= all.take(i as int));
            assert(all.take(i + 1).last() == ps[i as int].deep_view());
            assert(all.take(i + 1)[0] == all[0]);
        }
        if i > 0 {
            push_token(&mut ty, TokenKind::Punct, ",");
        }
        let arg = generic_param_to_arg(&ps[i]);
        let ghost mid = ty.deep_view();
        ty.push(arg);
        assert(ty.deep_view() =~= mid.push(param_arg(all[i as int])));
        assert(ty.deep_view() =~= head + arg_list(all.take(i + 1)));
        i += 1;
    }
    assert(all.take(i as int) =~= all);
    push_token(&mut ty, TokenKind::Punct, ">");
    assert(ty.deep_view() =~= applied_type(name@, all));
    ty
}

/// Whether a run of tokens mentions the self type nowhere.
pub fn tokens_self_free(ts: &Vec<Token>) -> (b: bool)
    ensures
        b == self_free(ts.deep_view()),
{
    let mut i: usize = 0;
    while i < ts.len()
        invariant
            i <= ts.len(),
            forall|j: int| 0 <= j < i ==> !is_self(#[trigger] ts.deep_view()[j]),
        decreases ts.len() - i,
    {
        if token_is_self(&ts[i]) {
            assert(is_self(ts.deep_view()[i as int]));
            return false;
        }
        i += 1;
    }
    true
}

/// A deep copy of the attributes that do not configure the builder.
pub fn retain_other_attrs(attrs: &Vec<Attribute>) -> (r: Vec<Attribute>)
    ensures
        r.deep_view() == strip_builder_attrs(attrs.deep_view()),
{
    let ghost all = attrs.deep_view();
    let mut r: Vec<Attribute> = Vec::new();
    assert(r.deep_view() =~= Seq::empty());
    assert(all.take(0) =~= Seq::empty());
    let mut i: usize = 0;
    while i < attrs.len()
        invariant
            i <= attrs.len(),
            all == attrs.deep_view(),
            r.deep_view() == strip_builder_attrs(all.take(i as int)),
        decreases attrs.len() - i,
    {
        let ghost before = r.deep_view();
        proof {
            assert(all.take(i + 1).drop_last() =~= all.take(i as int));
            assert(all.take(i + 1).last() == attrs[i as int].deep_view());
        }
        if !attr_is_builder(&attrs[i]) {
            r.push(attrs[i].dup());
            assert(r.deep_view() =~= before + seq![attrs[i as int].deep_view()]);
        } else {
            assert(r.deep_view() =~= before + Seq::empty());
        }
        i += 1;
    }
    assert(all.take(i as int) =~= all);
    r
}

/// A deep copy of the members, each without its configuring attributes.
pub fn strip_member_list(ms: &Vec<Member>) -> (r: Vec<Member>)
    ensures
        r.deep_view() == strip_members(ms.deep_view()),
{
    let mut r: Vec<Member> = Vec::new();
    let mut i: usize = 0;
    while i < ms.len()
        invariant
            i <= ms.len(),
            r.len() == i,
            forall|j: int| 0 <= j < i ==> r[j].deep_view() == strip_member(ms[j].deep_view()),
        decreases ms.len() - i,
    {
        let m = &ms[i];
        r.push(
            Member {
                attrs: retain_other_attrs(&m.attrs),
                name: dup_opt(&m.name),
                ty: dup_vec(&m.ty),
                span: m.span,
            },
        );
        i += 1;
    }
    assert(r.deep_view() =~= strip_members(ms.deep_view()));
    r
}

/// The fields of the members, one by one; the first failure ends it.
pub fn fields_from_members(ms: &Vec<Member>) -> (r: Result<Vec<Field>, Diagnostic>)
    ensures
        match r {
            Ok(fs) => collect_fields(ms.deep_view()) == Ok::<Seq<FieldV>, Diagnostic>(
                fs.deep_view(),
            ),
            Err(e) => collect_fields(ms.deep_view()) == Err::<Seq<FieldV>, Diagnostic>(e),
        },
{
    let ghost all = ms.deep_view();
    let mut results: Vec<Result<Field, Diagnostic>> = Vec::new();
    let mut i: usize = 0;
    while i < ms.len()
        invariant
            i <= ms.len(),
            results.len() == i,
            all == ms.deep_view(),
            forall|j: int| 0 <= j < i ==> field_result_view(results[j]) == field_of(all[j]),
        decreases ms.len() - i,
    {
        results.push(Field::from_syn_field(&ms[i]));
        i += 1;
    }
    let out = try_collect_vec(results);
    proof {
        match &out {
            Ok(fs) => {
                assert forall|j: int| 0 <= j < all.len() implies (#[trigger] field_of(
                    all[j],
                )) is Ok by {
                    assert(results[j] == Ok::<Field, Diagnostic>(fs[j]));
                    assert(field_result_view(results[j]) == field_of(all[j]));
                }
                lemma_collect_all_ok(all, all.len() as int);
                assert(all.take(all.len() as int) =~= all);
                assert forall|j: int| 0 <= j < all.len() implies fs.deep_view()[j] == field_of(
                    all[j],
                )->Ok_0 by {
                    assert(results[j] == Ok::<Field, Diagnostic>(fs[j]));
                    assert(field_result_view(results[j]) == field_of(all[j]));
                }
                assert(fs.deep_view() =~= Seq::new(
                    all.len(),
                    |j: int| field_of(all[j])->Ok_0,
                ));
            },
            Err(err) => {
                let e = *err;
                let k = choose|k: int|
                    0 <= k < results.len() && #[trigger] results[k] == Err::<Field, Diagnostic>(e)
                        && forall|j: int| 0 <= j < k ==> (#[trigger] results[j]) is Ok;
                assert(field_result_view(results[k]) == field_of(all[k]));
                assert forall|j: int| 0 <= j < k implies (#[trigger] field_of(all[j])) is Ok by {
                    assert(results[j] is Ok);
                    assert(field_result_view(results[j]) == field_of(all[j]));
                }
                lemma_collect_all_ok(all, k);
                assert(all.take(k + 1).drop_last() =~= all.take(k));
                assert(all.take(k + 1).last() == all[k]);
                lemma_collect_prefix_err(all, k + 1);
            },
        }
    }
    out
}

impl StructInputCtx {
    /// Whether the input is as `new` makes it: the struct's type is its
    /// name applied to its parameters and holds no self type, and the
    /// second declaration is the first with the self type rewritten.
    pub open spec fn wf(&self) -> bool {
        let s = self.deep_view();
        &&& s == struct_input(s.params, s.orig_struct)
        &&& self_free(s.struct_ty)
    }

    /// Takes a declaration and its options in. Fails exactly where the
    /// struct's own type would itself mention the self type, so that the
    /// rewriting could not remove it.
    pub fn new(params: StructInputParams, orig_struct: StructDecl) -> (r: Result<
        StructInputCtx,
        Diagnostic,
    >)
        ensures
            match r {
                Ok(ctx) => {
                    &&& ctx.wf()
                    &&& ctx.deep_view() == struct_input(
                        params.deep_view(),
                        orig_struct.deep_view(),
                    )
                },
                Err(e) => {
                    &&& !self_free(
                        applied_type(orig_struct.name@, orig_struct.generics.deep_view()),
                    )
                    &&& e == fail(ErrorKind::GenericsNormalizationFailure, orig_struct.span)
                },
            },
    {
        let struct_ty = make_applied_type(&orig_struct.name, &orig_struct.generics);
        if !tokens_self_free(&struct_ty) {
            return Err(
                Diagnostic { kind: ErrorKind::GenericsNormalizationFailure, span: orig_struct.span },
            );
        }
        let norm_struct = normalize_decl(&orig_struct, &struct_ty);
        Ok(StructInputCtx { orig_struct, norm_struct, params, struct_ty })
    }

    /// The name of the builder type.
    pub fn builder_ident(&self) -> (name: String)
        ensures
            name@ == builder_name(self.params.deep_view(), self.norm_struct.name@),
    {
        match &self.params.base.builder_type {
            Some(builder_type) => builder_type.clone(),
            None => {
                let mut name = self.norm_struct.name.clone();
                name.append("Builder");
                name
            },
        }
    }

    /// The declaration to hand back in place of the one that was read.
    pub fn adapted_struct(&self) -> (r: StructDecl)
        ensures
            r.deep_view() == strip_struct(self.orig_struct.deep_view()),
    {
        let orig = &self.orig_struct;
        let fields = match &orig.fields {
            FieldsShape::Named(ms) => FieldsShape::Named(strip_member_list(ms)),
            FieldsShape::Unnamed(ms) => FieldsShape::Unnamed(strip_member_list(ms)),
            FieldsShape::Unit => FieldsShape::Unit,
        };
        StructDecl {
            attrs: retain_other_attrs(&orig.attrs),
            vis: orig.vis,
            name: orig.name.clone(),
            generics: dup_vec(&orig.generics),
            where_clause: dup_opt(&orig.where_clause),
            fields,
            span: orig.span,
        }
    }

    /// Produces the description of the builder, or the diagnostic of the
    /// first thing that stands in its way: a body without named fields,
    /// a member without a name, or unsound options on a member.
    pub fn into_builder_gen_ctx(self) -> (r: Result<BuilderGenCtx, Diagnostic>)
        ensures
            match r {
                Ok(ctx) => struct_builder(self.deep_view()) == Ok::<BuilderGenCtxV, Diagnostic>(
                    ctx.deep_view(),
                ),
                Err(e) => struct_builder(self.deep_view()) == Err::<BuilderGenCtxV, Diagnostic>(e),
            },
    {
        let builder_ident = self.builder_ident();
        let mut builder_private_impl_ident = String::from_str("__");
        builder_private_impl_ident.append(builder_ident.as_str());
        builder_private_impl_ident.append("PrivateImpl");
        let mut builder_state_trait_ident = String::from_str("__");
        builder_state_trait_ident.append(builder_ident.as_str());
        builder_state_trait_ident.append("State");

        let StructInputCtx { orig_struct: _, norm_struct, params, struct_ty } = self;
        let StructDecl { attrs: _, vis, name, generics, where_clause, fields, span } = norm_struct;

        let fields = match fields {
            FieldsShape::Named(members) => match fields_from_members(&members) {
                Ok(fields) => fields,
                Err(e) => {
                    return Err(e);
                },
            },
            _ => {
                return Err(Diagnostic { kind: ErrorKind::UnsupportedFields, span });
            },
        };

        let generics = Generics { params: generics, where_clause };

        let (start_func_ident, start_func_vis) = match params.start_fn {
            Some(ItemParams { name: Some(n), vis }) => (n, vis),
            Some(ItemParams { name: None, vis }) => (String::from_str("builder"), vis),
            None => (String::from_str("builder"), None),
        };

        let finish_func_ident = match params.base.finish_fn {
            Some(n) => n,
            None => String::from_str("build"),
        };

        let mut output: Vec<Token> = Vec::new();
        assert(output.deep_view() =~= Seq::empty());
        push_token(&mut output, TokenKind::Punct, "->");
        push_all(&mut output, &struct_ty);
        assert(output.deep_view() =~= seq![punct_tok("->"@)] + struct_ty.deep_view());

        let mut start_func_docs = String::from_str(
            "Use builder syntax to create an instance of [`",
        );
        start_func_docs.append(name.as_str());
        start_func_docs.append("`]");

        let finish_func = FinishFunc {
            ident: finish_func_ident,
            is_unsafe: false,
            is_async: false,
            body: FinishBody::StructLiteral(StructLiteralBody { struct_ident: name }),
            output,
        };

        let start_func = StartFunc {
            ident: start_func_ident,
            vis: start_func_vis,
            docs: start_func_docs,
            generics: None,
        };

        let ctx = BuilderGenCtx {
            fields,
            builder_ident,
            builder_private_impl_ident,
            builder_state_trait_ident,
            receiver: Receiver::Absent,
            generics,
            vis,
            start_func,
            finish_func,
        };
        Ok(ctx)
    }
}

} // verus!
