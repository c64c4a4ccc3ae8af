//! The function adapter: reads a function or method with its options
//! and produces the description that the builder is generated from.

use crate::builder_gen::{
    punct_tok, push_token, BuilderGenCtx, BuilderGenCtxV, CallBody, CallBodyV, FinishBody,
    FinishBodyV, FinishFunc, FinishFuncV, Generics, GenericsV, Receiver, StartFunc, StartFuncV,
};
use crate::diag::{fail, Diagnostic, ErrorKind, Span};
use crate::field::FieldV;
use crate::input_struct::{
    collect_fields, fields_from_members, retain_other_attrs, strip_builder_attrs,
    strip_member_list, strip_members, tokens_self_free,
};
use crate::normalize::{
    normalize_generics, normalize_member_list, normalize_members, normalize_params,
    normalize_tokens, normalize_tokens_opt, push_all, self_free, subst_self, subst_self_opt,
};
use crate::params::{BuilderParams, BuilderParamsV};
use crate::syntax::{
    dup_opt, dup_vec, Attribute, AttributeV, Dup, GenericParam, GenericParamV, Member, MemberV,
    Token, TokenKind, TokenV, Visibility,
};
use vstd::prelude::*;
use vstd::string::StringExecFns;

verus! {

/// A function or method declaration as the generator sees it.
#[derive(Clone, Debug, PartialEq, Eq)]
pub struct FnDecl {
    pub attrs: Vec<Attribute>,
    pub vis: Visibility,
    pub name: String,
    pub generics: Vec<GenericParam>,
    pub where_clause: Option<Vec<Token>>,
    pub receiver: Receiver,
    pub params: Vec<Member>,
    pub is_unsafe: bool,
    pub is_async: bool,
    pub output: Vec<Token>,
    pub span: Span,
}

pub ghost struct FnDeclV {
    pub attrs: Seq<AttributeV>,
    pub vis: Visibility,
    pub name: Seq<char>,
    pub generics: Seq<GenericParamV>,
    pub where_clause: Option<Seq<TokenV>>,
    pub receiver: Receiver,
    pub params: Seq<MemberV>,
    pub is_unsafe: bool,
    pub is_async: bool,
    pub output: Seq<TokenV>,
    pub span: Span,
}

impl DeepView for FnDecl {
    type V = FnDeclV;

    open spec fn deep_view(&self) -> FnDeclV {
        FnDeclV {
            attrs: self.attrs.deep_view(),
            vis: self.vis,
            name: self.name@,
            generics: self.generics.deep_view(),
            where_clause: self.where_clause.deep_view(),
            receiver: self.receiver,
            params: self.params.deep_view(),
            is_unsafe: self.is_unsafe,
            is_async: self.is_async,
            output: self.output.deep_view(),
            span: self.span,
        }
    }
}

impl Dup for FnDecl {
    fn dup(&self) -> (r: FnDecl) {
        FnDecl {
            attrs: dup_vec(&self.attrs),
            vis: self.vis,
            name: self.name.clone(),
            generics: dup_vec(&self.generics),
            where_clause: dup_opt(&self.where_clause),
            receiver: self.receiver,
            params: dup_vec(&self.params),
            is_unsafe: self.is_unsafe,
            is_async: self.is_async,
            output: dup_vec(&self.output),
            span: self.span,
        }
    }
}

/// The function with the self type rewritten in the parameter types,
/// the bounds, the where clause and the return type.
pub open spec fn normalize_fn(f: FnDeclV, ty: Seq<TokenV>) -> FnDeclV {
    FnDeclV {
        generics: normalize_params(f.generics, ty),
        where_clause: subst_self_opt(f.where_clause, ty),
        params: normalize_members(f.params, ty),
        output: subst_self(f.output, ty),
        ..f
    }
}

/// The function as it is handed back: the same, without the attributes
/// that configure the builder, on the function and on its parameters.
pub open spec fn strip_fn(f: FnDeclV) -> FnDeclV {
    FnDeclV { attrs: strip_builder_attrs(f.attrs), params: strip_members(f.params), ..f }
}

/// A function input: the function as written, the same with the self
/// type rewritten, the options, and the type of the surrounding block
/// where the function is a method or an associated function.
#[derive(Clone, Debug, PartialEq, Eq)]
pub struct FnInputCtx {
    pub orig_fn: FnDecl,
    pub norm_fn: FnDecl,
    pub params: BuilderParams,
    pub self_ty: Option<Vec<Token>>,
}

pub ghost struct FnInputCtxV {
    pub orig_fn: FnDeclV,
    pub norm_fn: FnDeclV,
    pub params: BuilderParamsV,
    pub self_ty: Option<Seq<TokenV>>,
}

impl DeepView for FnInputCtx {
    type V = FnInputCtxV;

    open spec fn deep_view(&self) -> FnInputCtxV {
        FnInputCtxV {
            orig_fn: self.orig_fn.deep_view(),
            norm_fn: self.norm_fn.deep_view(),
            params: self.params.deep_view(),
            self_ty: self.self_ty.deep_view(),
        }
    }
}

/// What `new` makes of a function, its options and the type of the
/// block around it: a receiver without such a type is an invalid
/// configuration, and a type that mentions the self type cannot replace
/// it.
pub open spec fn fn_input(params: BuilderParamsV, f: FnDeclV, self_ty: Option<Seq<TokenV>>)
    -> Result<FnInputCtxV, Diagnostic> {
    match self_ty {
        None => if f.receiver != Receiver::Absent {
            Err(fail(ErrorKind::InvalidBuilderConfig, f.span))
        } else {
            Ok(FnInputCtxV { orig_fn: f, norm_fn: f, params, self_ty })
        },
        Some(ty) => if !self_free(ty) {
            Err(fail(ErrorKind::GenericsNormalizationFailure, f.span))
        } else {
            Ok(FnInputCtxV { orig_fn: f, norm_fn: normalize_fn(f, ty), params, self_ty })
        },
    }
}

/// The description of the builder for a function, given its fields: the
/// start method bears the function's name, the finishing method is
/// `call` unless configured, returns what the function returns and is
/// unsafe or asynchronous as the function is.
pub open spec fn fn_builder_ctx(s: FnInputCtxV, fields: Seq<FieldV>) -> BuilderGenCtxV {
    let b = match s.params.builder_type {
        Some(n) => n,
        None => s.norm_fn.name + "Builder"@,
    };
    BuilderGenCtxV {
        fields,
        builder_ident: b,
        builder_private_impl_ident: "__"@ + b + "PrivateImpl"@,
        builder_state_trait_ident: "__"@ + b + "State"@,
        receiver: s.norm_fn.receiver,
        generics: GenericsV {
            params: s.norm_fn.generics,
            where_clause: s.norm_fn.where_clause,
        },
        vis: s.norm_fn.vis,
        start_func: StartFuncV {
            ident: s.norm_fn.name,
            vis: None,
            docs: "Use builder syntax to set the inputs of [`"@ + s.norm_fn.name + "`]"@,
            generics: None,
        },
        finish_func: FinishFuncV {
            ident: match s.params.finish_fn {
                Some(n) => n,
                None => "call"@,
            },
            is_unsafe: s.norm_fn.is_unsafe,
            is_async: s.norm_fn.is_async,
            body: FinishBodyV::Call(
                CallBodyV {
                    fn_ident: s.norm_fn.name,
                    receiver: s.norm_fn.receiver,
                    self_ty: s.self_ty,
                },
            ),
            output: seq![punct_tok("->"@)] + s.norm_fn.output,
        },
    }
}

/// What the function adapter yields: the builder's description where
/// every parameter makes a field, else the failure of the first that
/// does not.
pub open spec fn fn_builder(s: FnInputCtxV) -> Result<BuilderGenCtxV, Diagnostic> {
    match collect_fields(s.norm_fn.params) {
        Ok(fs) => Ok(fn_builder_ctx(s, fs)),
        Err(e) => Err(e),
    }
}

pub open spec fn fn_input_view(r: Result<FnInputCtx, Diagnostic>) -> Result<
    FnInputCtxV,
    Diagnostic,
> {
    match r {
        Ok(c) => Ok(c.deep_view()),
        Err(e) => Err(e),
    }
}

impl FnInputCtx {
    /// Takes a function, its options and the type of the block around
    /// it in.
    pub fn new(params: BuilderParams, orig_fn: FnDecl, self_ty: Option<Vec<Token>>) -> (r: Result<
        FnInputCtx,
        Diagnostic,
    >)
        ensures
            fn_input_view(r) == fn_input(
                params.deep_view(),
                orig_fn.deep_view(),
                self_ty.deep_view(),
            ),
    {
        match &self_ty {
            None => {
                match orig_fn.receiver {
                    Receiver::Absent => {},
                    _ => {
                        return Err(
                            Diagnostic {
                                kind: ErrorKind::InvalidBuilderConfig,
                                span: orig_fn.span,
                            },
                        );
                    },
                }
                let norm_fn = orig_fn.dup();
                Ok(FnInputCtx { orig_fn, norm_fn, params, self_ty })
            },
            Some(ty) => {
                if !tokens_self_free(ty) {
                    return Err(
                        Diagnostic {
                            kind: ErrorKind::GenericsNormalizationFailure,
                            span: orig_fn.span,
                        },
                    );
                }
                let norm_fn = FnDecl {
                    attrs: dup_vec(&orig_fn.attrs),
                    vis: orig_fn.vis,
                    name: orig_fn.name.clone(),
                    generics: normalize_generics(&orig_fn.generics, ty),
                    where_clause: normalize_tokens_opt(&orig_fn.where_clause, ty),
                    receiver: orig_fn.receiver,
                    params: normalize_member_list(&orig_fn.params, ty),
                    is_unsafe: orig_fn.is_unsafe,
                    is_async: orig_fn.is_async,
                    output: normalize_tokens(&orig_fn.output, ty),
                    span: orig_fn.span,
                };
                Ok(FnInputCtx { orig_fn, norm_fn, params, self_ty })
            },
        }
    }

    /// The function to hand back in place of the one that was read.
    pub fn adapted_fn(&self) -> (r: FnDecl)
        ensures
            r.deep_view() == strip_fn(self.orig_fn.deep_view()),
    {
        let orig = &self.orig_fn;
        FnDecl {
            attrs: retain_other_attrs(&orig.attrs),
            vis: orig.vis,
            name: orig.name.clone(),
            generics: dup_vec(&orig.generics),
            where_clause: dup_opt(&orig.where_clause),
            receiver: orig.receiver,
            params: strip_member_list(&orig.params),
            is_unsafe: orig.is_unsafe,
            is_async: orig.is_async,
            output: dup_vec(&orig.output),
            span: orig.span,
        }
    }

    /// Produces the description of the builder, or the diagnostic of the
    /// first parameter that has no name or carries unsound options.
    pub fn into_builder_gen_ctx(self) -> (r: Result<BuilderGenCtx, Diagnostic>)
        ensures
            match r {
                Ok(ctx) => fn_builder(self.deep_view()) == Ok::<BuilderGenCtxV, Diagnostic>(
                    ctx.deep_view(),
                ),
                Err(e) => fn_builder(self.deep_view()) == Err::<BuilderGenCtxV, Diagnostic>(e),
            },
    {
        let FnInputCtx { orig_fn: _, norm_fn, params, self_ty } = self;
        let FnDecl {
            attrs: _,
            vis,
            name,
            generics,
            where_clause,
            receiver,
            params: members,
            is_unsafe,
            is_async,
            output: fn_output,
            span: _,
        } = norm_fn;
        let fields = match fields_from_members(&members) {
            Ok(fields) => fields,
            Err(e) => {
                return Err(e);
            },
        };
        let builder_ident = match params.builder_type {
            Some(n) => n,
            None => {
                let mut n = name.clone();
                n.append("Builder");
                n
            },
        };
        let mut builder_private_impl_ident = String::from_str("__");
        builder_private_impl_ident.append(builder_ident.as_str());
        builder_private_impl_ident.append("PrivateImpl");
        let mut builder_state_trait_ident = String::from_str("__");
        builder_state_trait_ident.append(builder_ident.as_str());
        builder_state_trait_ident.append("State");

        let finish_func_ident = match params.finish_fn {
            Some(n) => n,
            None => String::from_str("call"),
        };
        let mut output: Vec<Token> = Vec::new();
        assert(output.deep_view() =~= Seq::empty());
        push_token(&mut output, TokenKind::Punct, "->");
        push_all(&mut output, &fn_output);
        assert(output.deep_view() =~= seq![punct_tok("->"@)] + fn_output.deep_view());

        let mut docs = String::from_str("Use builder syntax to set the inputs of [`");
        docs.append(name.as_str());
        docs.append("`]");

        let start_func = StartFunc { ident: name.clone(), vis: None, docs, generics: None };
        let finish_func = FinishFunc {
            ident: finish_func_ident,
            is_unsafe,
            is_async,
            body: FinishBody::Call(CallBody { fn_ident: name, receiver, self_ty }),
            output,
        };
        Ok(
            BuilderGenCtx {
                fields,
                builder_ident,
                builder_private_impl_ident,
                builder_state_trait_ident,
                receiver,
                generics: Generics { params: generics, where_clause },
                vis,
                start_func,
                finish_func,
            },
        )
    }
}

} // verus!
