//! The shape-independent description of a builder: the fields, the names,
//! the generic parameters and the two methods that open and close the
//! chain of setters.

use crate::diag::{fail, Diagnostic, ErrorKind};
use crate::field::{is_mandatory, Field, FieldV};
use crate::input_struct::{applied_type, generic_param_to_arg, make_applied_type, param_arg};
use crate::normalize::push_all;
use crate::syntax::{
    dup_opt, dup_vec, Dup, GenericParam, GenericParamV, ParamKind, Token, TokenKind, TokenV,
    Visibility,
};
use vstd::prelude::*;

verus! {

pub open spec fn ident_tok(name: Seq<char>) -> TokenV {
    TokenV { kind: TokenKind::Ident, text: name }
}

pub open spec fn punct_tok(text: Seq<char>) -> TokenV {
    TokenV { kind: TokenKind::Punct, text }
}

pub open spec fn open_tok(text: Seq<char>) -> TokenV {
    TokenV { kind: TokenKind::Open, text }
}

pub open spec fn close_tok(text: Seq<char>) -> TokenV {
    TokenV { kind: TokenKind::Close, text }
}

/// The generic parameters of the input and its where clause.
#[derive(Clone, Debug, PartialEq, Eq)]
pub struct Generics {
    pub params: Vec<GenericParam>,
    pub where_clause: Option<Vec<Token>>,
}

pub ghost struct GenericsV {
    pub params: Seq<GenericParamV>,
    pub where_clause: Option<Seq<TokenV>>,
}

impl DeepView for Generics {
    type V = GenericsV;

    open spec fn deep_view(&self) -> GenericsV {
        GenericsV {
            params: self.params.deep_view(),
            where_clause: self.where_clause.deep_view(),
        }
    }
}

impl Dup for Generics {
    fn dup(&self) -> (r: Generics) {
        Generics { params: dup_vec(&self.params), where_clause: dup_opt(&self.where_clause) }
    }
}

/// How the finishing method receives the value it was started on.
#[derive(Clone, Copy, Debug, PartialEq, Eq, Structural)]
pub enum Receiver {
    Absent,
    ByValue,
    ByReference,
}

/// The method that opens the chain.
#[derive(Clone, Debug, PartialEq, Eq)]
pub struct StartFunc {
    pub ident: String,
    pub vis: Option<Visibility>,
    pub docs: String,
    pub generics: Option<Generics>,
}

pub ghost struct StartFuncV {
    pub ident: Seq<char>,
    pub vis: Option<Visibility>,
    pub docs: Seq<char>,
    pub generics: Option<GenericsV>,
}

impl DeepView for StartFunc {
    type V = StartFuncV;

    open spec fn deep_view(&self) -> StartFuncV {
        StartFuncV {
            ident: self.ident@,
            vis: self.vis,
            docs: self.docs@,
            generics: self.generics.deep_view(),
        }
    }
}

/// A field's name with the expression that yields its final value.
#[derive(Clone, Debug, PartialEq, Eq)]
pub struct FieldExpr {
    pub ident: String,
    pub expr: Vec<Token>,
}

pub ghost struct FieldExprV {
    pub ident: Seq<char>,
    pub expr: Seq<TokenV>,
}

impl DeepView for FieldExpr {
    type V = FieldExprV;

    open spec fn deep_view(&self) -> FieldExprV {
        FieldExprV { ident: self.ident@, expr: self.expr.deep_view() }
    }
}

/// The body of a finishing method that writes a struct literal.
#[derive(Clone, Debug, PartialEq, Eq)]
pub struct StructLiteralBody {
    pub struct_ident: String,
}

pub ghost struct StructLiteralBodyV {
    pub struct_ident: Seq<char>,
}

impl DeepView for StructLiteralBody {
    type V = StructLiteralBodyV;

    open spec fn deep_view(&self) -> StructLiteralBodyV {
        StructLiteralBodyV { struct_ident: self.struct_ident@ }
    }
}

/// `name: expr,` for each field, in order.
pub open spec fn literal_fields(fes: Seq<FieldExprV>) -> Seq<TokenV>
    decreases fes.len(),
{
    if fes.len() == 0 {
        Seq::empty()
    } else {
        literal_fields(fes.drop_last()) + seq![ident_tok(fes.last().ident), punct_tok(":"@)]
            + fes.last().expr + seq![punct_tok(","@)]
    }
}

/// `Name { a: expr, b: expr, }`.
pub open spec fn struct_literal(name: Seq<char>, fes: Seq<FieldExprV>) -> Seq<TokenV> {
    seq![ident_tok(name), open_tok("{"@)] + literal_fields(fes) + seq![close_tok("}"@)]
}

/// Appends one token to a run.
pub fn push_token(dst: &mut Vec<Token>, kind: TokenKind, text: &str)
    ensures
        final(dst).deep_view() == old(dst).deep_view().push(TokenV { kind, text: text@ }),
{
    let ghost before = dst.deep_view();
    dst.push(Token::new(kind, text));
    assert(dst.deep_view() =~= before.push(TokenV { kind, text: text@ }));
}

impl StructLiteralBody {
    /// Writes the struct literal that gives each field its expression.
    pub fn gen(&self, field_exprs: &Vec<FieldExpr>) -> (out: Vec<Token>)
        ensures
            out.deep_view() == struct_literal(self.struct_ident@, field_exprs.deep_view()),
    {
        let ghost fes = field_exprs.deep_view();
        let mut out: Vec<Token> = Vec::new();
        assert(out.deep_view() =~= Seq::empty());
        push_token(&mut out, TokenKind::Ident, self.struct_ident.as_str());
        push_token(&mut out, TokenKind::Open, "{");
        let ghost head = seq![ident_tok(self.struct_ident@), open_tok("{"@)];
        assert(out.deep_view() =~= head);
        assert(fes.take(0) =~= Seq::empty());
        let mut i: usize = 0;
        while i < field_exprs.len()
            invariant
                i <= field_exprs.len(),
                fes == field_exprs.deep_view(),
                out.deep_view() == head + literal_fields(fes.take(i as int)),
            decreases field_exprs.len() - i,
        {
            let fe = &field_exprs[i];
            proof {
                assert(fes.take(i + 1).drop_last() =~= fes.take(i as int));
                assert(fes.take(i + 1).last() == fe.deep_view());
            }
            push_token(&mut out, TokenKind::Ident, fe.ident.as_str());
            push_token(&mut out, TokenKind::Punct, ":");
            push_all(&mut out, &fe.expr);
            push_token(&mut out, TokenKind::Punct, ",");
            assert(out.deep_view() =~= head + literal_fields(fes.take(i + 1)));
            i += 1;
        }
        assert(fes.take(i as int) =~= fes);
        push_token(&mut out, TokenKind::Close, "}");
        assert(out.deep_view() =~= struct_literal(self.struct_ident@, fes));
        out
    }
}

/// The body of a finishing method that calls the function the builder
/// was made for.
#[derive(Clone, Debug, PartialEq, Eq)]
pub struct CallBody {
    pub fn_ident: String,
    pub receiver: Receiver,
    /// The type whose associated function is called, where there is one.
    pub self_ty: Option<Vec<Token>>,
}

pub ghost struct CallBodyV {
    pub fn_ident: Seq<char>,
    pub receiver: Receiver,
    pub self_ty: Option<Seq<TokenV>>,
}

impl DeepView for CallBody {
    type V = CallBodyV;

    open spec fn deep_view(&self) -> CallBodyV {
        CallBodyV {
            fn_ident: self.fn_ident@,
            receiver: self.receiver,
            self_ty: self.self_ty.deep_view(),
        }
    }
}

/// `expr,` for each field, in order.
pub open spec fn call_args(fes: Seq<FieldExprV>) -> Seq<TokenV>
    decreases fes.len(),
{
    if fes.len() == 0 {
        Seq::empty()
    } else {
        call_args(fes.drop_last()) + fes.last().expr + seq![punct_tok(","@)]
    }
}

/// What is called: `receiver.name` for a method, `<Type>::name` for an
/// associated function, the bare name for a free function.
pub open spec fn call_head(b: CallBodyV) -> Seq<TokenV> {
    match b.receiver {
        Receiver::Absent => match b.self_ty {
            Some(ty) => seq![punct_tok("<"@)] + ty + seq![
                punct_tok(">"@),
                punct_tok("::"@),
                ident_tok(b.fn_ident),
            ],
            None => seq![ident_tok(b.fn_ident)],
        },
        _ => seq![ident_tok("receiver"@), punct_tok("."@), ident_tok(b.fn_ident)],
    }
}

/// The call with each field's expression as an argument, in order.
pub open spec fn call_expr(b: CallBodyV, fes: Seq<FieldExprV>) -> Seq<TokenV> {
    call_head(b) + seq![open_tok("("@)] + call_args(fes) + seq![close_tok(")"@)]
}

impl CallBody {
    /// Writes the call that hands each field's expression over.
    pub fn gen(&self, field_exprs: &Vec<FieldExpr>) -> (out: Vec<Token>)
        ensures
            out.deep_view() == call_expr(self.deep_view(), field_exprs.deep_view()),
    {
        let ghost fes = field_exprs.deep_view();
        let mut out: Vec<Token> = Vec::new();
        assert(out.deep_view() =~= Seq::empty());
        match self.receiver {
            Receiver::Absent => match &self.self_ty {
                Some(ty) => {
                    push_token(&mut out, TokenKind::Punct, "<");
                    push_all(&mut out, ty);
                    push_token(&mut out, TokenKind::Punct, ">");
                    push_token(&mut out, TokenKind::Punct, "::");
                    push_token(&mut out, TokenKind::Ident, self.fn_ident.as_str());
                },
                None => {
                    push_token(&mut out, TokenKind::Ident, self.fn_ident.as_str());
                },
            },
            _ => {
                push_token(&mut out, TokenKind::Ident, "receiver");
                push_token(&mut out, TokenKind::Punct, ".");
                push_token(&mut out, TokenKind::Ident, self.fn_ident.as_str());
            },
        }
        assert(out.deep_view() =~= call_head(self.deep_view()));
        push_token(&mut out, TokenKind::Open, "(");
        let ghost head = call_head(self.deep_view()) + seq![open_tok("("@)];
        assert(out.deep_view() =~= head);
        assert(fes.take(0) =~= Seq::empty());
        let mut i: usize = 0;
        while i < field_exprs.len()
            invariant
                i <= field_exprs.len(),
                fes == field_exprs.deep_view(),
                out.deep_view() == head + call_args(fes.take(i as int)),
            decreases field_exprs.len() - i,
        {
            let fe = &field_exprs[i];
            proof {
                assert(fes.take(i + 1).drop_last() =~= fes.take(i as int));
                assert(fes.take(i + 1).last() == fe.deep_view());
            }
            push_all(&mut out, &fe.expr);
            push_token(&mut out, TokenKind::Punct, ",");
            assert(out.deep_view() =~= head + call_args(fes.take(i + 1)));
            i += 1;
        }
        assert(fes.take(i as int) =~= fes);
        push_token(&mut out, TokenKind::Close, ")");
        assert(out.deep_view() =~= call_expr(self.deep_view(), fes));
        out
    }
}

/// The body of a finishing method, by the shape of the input.
#[derive(Clone, Debug, PartialEq, Eq)]
pub enum FinishBody {
    StructLiteral(StructLiteralBody),
    Call(CallBody),
}

pub ghost enum FinishBodyV {
    StructLiteral(StructLiteralBodyV),
    Call(CallBodyV),
}

impl DeepView for FinishBody {
    type V = FinishBodyV;

    open spec fn deep_view(&self) -> FinishBodyV {
        match self {
            FinishBody::StructLiteral(b) => FinishBodyV::StructLiteral(b.deep_view()),
            FinishBody::Call(b) => FinishBodyV::Call(b.deep_view()),
        }
    }
}

/// The tokens of a finishing method's body for the given expressions.
pub open spec fn body_tokens(b: FinishBodyV, fes: Seq<FieldExprV>) -> Seq<TokenV> {
    match b {
        FinishBodyV::StructLiteral(l) => struct_literal(l.struct_ident, fes),
        FinishBodyV::Call(c) => call_expr(c, fes),
    }
}

impl FinishBody {
    /// Writes the body for the given expressions.
    pub fn gen(&self, field_exprs: &Vec<FieldExpr>) -> (out: Vec<Token>)
        ensures
            out.deep_view() == body_tokens(self.deep_view(), field_exprs.deep_view()),
    {
        match self {
            FinishBody::StructLiteral(b) => b.gen(field_exprs),
            FinishBody::Call(b) => b.gen(field_exprs),
        }
    }
}

/// The method that closes the chain.
#[derive(Clone, Debug, PartialEq, Eq)]
pub struct FinishFunc {
    pub ident: String,
    pub is_unsafe: bool,
    pub is_async: bool,
    pub body: FinishBody,
    pub output: Vec<Token>,
}

pub ghost struct FinishFuncV {
    pub ident: Seq<char>,
    pub is_unsafe: bool,
    pub is_async: bool,
    pub body: FinishBodyV,
    pub output: Seq<TokenV>,
}

impl DeepView for FinishFunc {
    type V = FinishFuncV;

    open spec fn deep_view(&self) -> FinishFuncV {
        FinishFuncV {
            ident: self.ident@,
            is_unsafe: self.is_unsafe,
            is_async: self.is_async,
            body: self.body.deep_view(),
            output: self.output.deep_view(),
        }
    }
}

/// Everything the emission of a builder is driven by.
#[derive(Clone, Debug, PartialEq, Eq)]
pub struct BuilderGenCtx {
    pub fields: Vec<Field>,
    pub builder_ident: String,
    pub builder_private_impl_ident: String,
    pub builder_state_trait_ident: String,
    pub receiver: Receiver,
    pub generics: Generics,
    pub vis: Visibility,
    pub start_func: StartFunc,
    pub finish_func: FinishFunc,
}

pub ghost struct BuilderGenCtxV {
    pub fields: Seq<FieldV>,
    pub builder_ident: Seq<char>,
    pub builder_private_impl_ident: Seq<char>,
    pub builder_state_trait_ident: Seq<char>,
    pub receiver: Receiver,
    pub generics: GenericsV,
    pub vis: Visibility,
    pub start_func: StartFuncV,
    pub finish_func: FinishFuncV,
}

impl DeepView for BuilderGenCtx {
    type V = BuilderGenCtxV;

    open spec fn deep_view(&self) -> BuilderGenCtxV {
        BuilderGenCtxV {
            fields: self.fields.deep_view(),
            builder_ident: self.builder_ident@,
            builder_private_impl_ident: self.builder_private_impl_ident@,
            builder_state_trait_ident: self.builder_state_trait_ident@,
            receiver: self.receiver,
            generics: self.generics.deep_view(),
            vis: self.vis,
            start_func: self.start_func.deep_view(),
            finish_func: self.finish_func.deep_view(),
        }
    }
}

/// The role of a generated declaration.
#[derive(Clone, Copy, Debug, PartialEq, Eq, Structural)]
pub enum DeclKind {
    BuilderType,
    StateTrait,
    PrivateImpl,
    ImplBlock,
}

/// The role of a generated method.
#[derive(Clone, Copy, Debug, PartialEq, Eq, Structural)]
pub enum MethodKind {
    Start,
    Setter,
    Finish,
}

/// A generated method. A setter names the field it sets and, for a
/// mandatory field, the marker that it moves from unset to set.
#[derive(Clone, Debug, PartialEq, Eq)]
pub struct Method {
    pub kind: MethodKind,
    pub ident: String,
    pub vis: Visibility,
    pub field: Option<usize>,
    pub marker: Option<usize>,
    pub is_unsafe: bool,
    pub is_async: bool,
}

pub ghost struct MethodV {
    pub kind: MethodKind,
    pub ident: Seq<char>,
    pub vis: Visibility,
    pub field: Option<usize>,
    pub marker: Option<usize>,
    pub is_unsafe: bool,
    pub is_async: bool,
}

impl DeepView for Method {
    type V = MethodV;

    open spec fn deep_view(&self) -> MethodV {
        MethodV {
            kind: self.kind,
            ident: self.ident@,
            vis: self.vis,
            field: self.field,
            marker: self.marker,
            is_unsafe: self.is_unsafe,
            is_async: self.is_async,
        }
    }
}

/// A generated declaration: its role, its name, the generic parameters
/// it declares again, the number of markers it carries and its methods.
#[derive(Clone, Debug, PartialEq, Eq)]
pub struct Declaration {
    pub kind: DeclKind,
    pub ident: String,
    pub vis: Visibility,
    pub generics: Generics,
    pub markers: usize,
    pub methods: Vec<Method>,
}

pub ghost struct DeclarationV {
    pub kind: DeclKind,
    pub ident: Seq<char>,
    pub vis: Visibility,
    pub generics: GenericsV,
    pub markers: usize,
    pub methods: Seq<MethodV>,
}

impl DeepView for Declaration {
    type V = DeclarationV;

    open spec fn deep_view(&self) -> DeclarationV {
        DeclarationV {
            kind: self.kind,
            ident: self.ident@,
            vis: self.vis,
            generics: self.generics.deep_view(),
            markers: self.markers,
            methods: self.methods.deep_view(),
        }
    }
}

/// The number of mandatory fields among the first `k`.
pub open spec fn mandatory_before(fields: Seq<FieldV>, k: int) -> nat
    decreases k,
{
    if k <= 0 {
        0
    } else {
        mandatory_before(fields, k - 1) + if is_mandatory(fields[k - 1]) {
            1nat
        } else {
            0nat
        }
    }
}

/// The name of a field's setter.
pub open spec fn setter_name(f: FieldV) -> Seq<char> {
    match f.params.name {
        Some(n) => n,
        None => f.ident,
    }
}

/// The setter of the field at position `i`.
pub open spec fn setter_method(fields: Seq<FieldV>, i: int, vis: Visibility) -> MethodV {
    MethodV {
        kind: MethodKind::Setter,
        ident: setter_name(fields[i]),
        vis,
        field: Some(i as usize),
        marker: if is_mandatory(fields[i]) {
            Some(mandatory_before(fields, i) as usize)
        } else {
            None
        },
        is_unsafe: false,
        is_async: false,
    }
}

/// Whether a method of the list has the given name.
pub open spec fn name_taken(ms: Seq<MethodV>, name: Seq<char>) -> bool {
    exists|j: int| 0 <= j < ms.len() && (#[trigger] ms[j]).ident == name
}

/// The methods `ms` followed by the setters of the first `k` fields. A
/// skipped field has no setter. A setter whose name is taken already, by
/// another setter or by the finishing method, makes the whole invalid.
pub open spec fn with_setters(
    ms: Seq<MethodV>,
    fields: Seq<FieldV>,
    k: int,
    vis: Visibility,
    finish: Seq<char>,
) -> Result<Seq<MethodV>, Diagnostic>
    decreases k,
{
    if k <= 0 {
        Ok(ms)
    } else {
        match with_setters(ms, fields, k - 1, vis, finish) {
            Ok(acc) => {
                let f = fields[k - 1];
                if f.params.skip {
                    Ok(acc)
                } else if setter_name(f) == finish || name_taken(acc, setter_name(f)) {
                    Err(fail(ErrorKind::InvalidBuilderConfig, f.span))
                } else {
                    Ok(acc.push(setter_method(fields, k - 1, vis)))
                }
            },
            Err(e) => Err(e),
        }
    }
}

pub open spec fn start_method(c: BuilderGenCtxV) -> MethodV {
    MethodV {
        kind: MethodKind::Start,
        ident: c.start_func.ident,
        vis: match c.start_func.vis {
            Some(v) => v,
            None => c.vis,
        },
        field: None,
        marker: None,
        is_unsafe: false,
        is_async: false,
    }
}

pub open spec fn finish_method(c: BuilderGenCtxV) -> MethodV {
    MethodV {
        kind: MethodKind::Finish,
        ident: c.finish_func.ident,
        vis: c.vis,
        field: None,
        marker: None,
        is_unsafe: c.finish_func.is_unsafe,
        is_async: c.finish_func.is_async,
    }
}

pub open spec fn bare_decl(c: BuilderGenCtxV, kind: DeclKind, ident: Seq<char>, vis: Visibility)
    -> DeclarationV {
    DeclarationV {
        kind,
        ident,
        vis,
        generics: c.generics,
        markers: mandatory_before(c.fields, c.fields.len() as int) as usize,
        methods: Seq::empty(),
    }
}

/// The declarations of a builder, in the order in which they are
/// spliced in: the builder type, the hidden trait of its states, the
/// hidden storage, and the one block that holds the start method, the
/// setters and the finishing method.
pub open spec fn declarations(c: BuilderGenCtxV) -> Result<Seq<DeclarationV>, Diagnostic> {
    match with_setters(
        seq![start_method(c)],
        c.fields,
        c.fields.len() as int,
        c.vis,
        c.finish_func.ident,
    ) {
        Ok(ms) => Ok(
            seq![
                bare_decl(c, DeclKind::BuilderType, c.builder_ident, c.vis),
                bare_decl(
                    c,
                    DeclKind::StateTrait,
                    c.builder_state_trait_ident,
                    Visibility::Inherited,
                ),
                bare_decl(
                    c,
                    DeclKind::PrivateImpl,
                    c.builder_private_impl_ident,
                    Visibility::Inherited,
                ),
                DeclarationV {
                    methods: ms.push(finish_method(c)),
                    ..bare_decl(c, DeclKind::ImplBlock, c.builder_ident, c.vis)
                },
            ],
        ),
        Err(e) => Err(e),
    }
}

/// Once the setters of a prefix of the fields fail, so do those of all.
pub proof fn lemma_setters_prefix_err(
    ms: Seq<MethodV>,
    fields: Seq<FieldV>,
    k: int,
    n: int,
    vis: Visibility,
    finish: Seq<char>,
)
    requires
        0 <= k <= n,
        with_setters(ms, fields, k, vis, finish) is Err,
    ensures
        with_setters(ms, fields, n, vis, finish) == with_setters(ms, fields, k, vis, finish),
    decreases n - k,
{
    if k < n {
        lemma_setters_prefix_err(ms, fields, k + 1, n, vis, finish);
    }
}

/// Whether a method of the list has the given name.
pub fn has_method_named(ms: &Vec<Method>, name: &String) -> (b: bool)
    ensures
        b == name_taken(ms.deep_view(), name@),
{
    let mut j: usize = 0;
    while j < ms.len()
        invariant
            j <= ms.len(),
            forall|i: int| 0 <= i < j ==> (#[trigger] ms.deep_view()[i]).ident != name@,
        decreases ms.len() - j,
    {
        if ms[j].ident == *name {
            assert(ms.deep_view()[j as int].ident == name@);
            return true;
        }
        j += 1;
    }
    false
}

impl BuilderGenCtx {
    /// The number of markers the builder carries: one for each
    /// mandatory field.
    pub fn marker_count(&self) -> (n: usize)
        ensures
            n == mandatory_before(self.fields.deep_view(), self.fields.len() as int),
    {
        let ghost fs = self.fields.deep_view();
        let mut n: usize = 0;
        let mut i: usize = 0;
        while i < self.fields.len()
            invariant
                i <= self.fields.len(),
                fs == self.fields.deep_view(),
                n <= i,
                n == mandatory_before(fs, i as int),
            decreases self.fields.len() - i,
        {
            if self.fields[i].mandatory() {
                n += 1;
            }
            i += 1;
        }
        n
    }

    fn bare(&self, kind: DeclKind, ident: &String, vis: Visibility) -> (d: Declaration)
        ensures
            d.deep_view() == bare_decl(self.deep_view(), kind, ident@, vis),
    {
        let methods: Vec<Method> = Vec::new();
        assert(methods.deep_view() =~= Seq::empty());
        Declaration {
            kind,
            ident: ident.clone(),
            vis,
            generics: self.generics.dup(),
            markers: self.marker_count(),
            methods,
        }
    }

    /// Emits the declarations of the builder, all of them or none: it
    /// fails exactly where two methods of the builder would share a name.
    pub fn emit(&self) -> (r: Result<Vec<Declaration>, Diagnostic>)
        ensures
            match r {
                Ok(ds) => declarations(self.deep_view()) == Ok::<Seq<DeclarationV>, Diagnostic>(
                    ds.deep_view(),
                ),
                Err(e) => declarations(self.deep_view()) == Err::<Seq<DeclarationV>, Diagnostic>(
                    e,
                ),
            },
    {
        let ghost c = self.deep_view();
        let ghost fs = self.fields.deep_view();
        let start_vis = match self.start_func.vis {
            Some(v) => v,
            None => self.vis,
        };
        let mut methods: Vec<Method> = Vec::new();
        methods.push(
            Method {
                kind: MethodKind::Start,
                ident: self.start_func.ident.clone(),
                vis: start_vis,
                field: None,
                marker: None,
                is_unsafe: false,
                is_async: false,
            },
        );
        let ghost first = seq![start_method(c)];
        assert(methods.deep_view() =~= first);
        let mut marker: usize = 0;
        let mut i: usize = 0;
        while i < self.fields.len()
            invariant
                i <= self.fields.len(),
                c == self.deep_view(),
                fs == self.fields.deep_view(),
                fs == c.fields,
                first == seq![start_method(c)],
                marker <= i,
                marker == mandatory_before(fs, i as int),
                with_setters(first, fs, i as int, c.vis, c.finish_func.ident) == Ok::<
                    Seq<MethodV>,
                    Diagnostic,
                >(methods.deep_view()),
            decreases self.fields.len() - i,
        {
            let f = &self.fields[i];
            let ghost before = methods.deep_view();
            assert(fs[i as int] == f.deep_view());
            if !f.params.skip {
                let name = match &f.params.name {
                    Some(n) => n.clone(),
                    None => f.ident.clone(),
                };
                assert(name@ == setter_name(fs[i as int]));
                if name == self.finish_func.ident || has_method_named(&methods, &name) {
                    proof {
                        assert(with_setters(first, fs, i + 1, c.vis, c.finish_func.ident) == Err::<
                            Seq<MethodV>,
                            Diagnostic,
                        >(fail(ErrorKind::InvalidBuilderConfig, fs[i as int].span)));
                        lemma_setters_prefix_err(
                            first,
                            fs,
                            i + 1,
                            fs.len() as int,
                            c.vis,
                            c.finish_func.ident,
                        );
                    }
                    return Err(Diagnostic { kind: ErrorKind::InvalidBuilderConfig, span: f.span });
                }
                let mandatory = f.mandatory();
                methods.push(
                    Method {
                        kind: MethodKind::Setter,
                        ident: name,
                        vis: self.vis,
                        field: Some(i),
                        marker: if mandatory {
                            Some(marker)
                        } else {
                            None
                        },
                        is_unsafe: false,
                        is_async: false,
                    },
                );
                assert(methods.deep_view() =~= before.push(setter_method(fs, i as int, c.vis)));
            }
            if f.mandatory() {
                marker += 1;
            }
            i += 1;
        }
        let ghost setters = methods.deep_view();
        methods.push(
            Method {
                kind: MethodKind::Finish,
                ident: self.finish_func.ident.clone(),
                vis: self.vis,
                field: None,
                marker: None,
                is_unsafe: self.finish_func.is_unsafe,
                is_async: self.finish_func.is_async,
            },
        );
        assert(methods.deep_view() =~= setters.push(finish_method(c)));
        let mut block = self.bare(DeclKind::ImplBlock, &self.builder_ident, self.vis);
        block.methods = methods;
        let mut out: Vec<Declaration> = Vec::new();
        out.push(self.bare(DeclKind::BuilderType, &self.builder_ident, self.vis));
        out.push(
            self.bare(DeclKind::StateTrait, &self.builder_state_trait_ident, Visibility::Inherited),
        );
        out.push(
            self.bare(
                DeclKind::PrivateImpl,
                &self.builder_private_impl_ident,
                Visibility::Inherited,
            ),
        );
        out.push(block);
        assert(out.deep_view() =~= declarations(c)->Ok_0);
        Ok(out)
    }
}

/// Every generated declaration declares the generic parameters of the
/// input again: the same parameters, of the same kinds, in the same
/// order, with the same where clause.
pub proof fn lemma_generics_threaded(c: BuilderGenCtxV, i: int)
    requires
        declarations(c) is Ok,
        0 <= i < declarations(c)->Ok_0.len(),
    ensures
        declarations(c)->Ok_0[i].generics == c.generics,
{
}

/// The declarations come in a fixed order, four of them, and the block
/// of methods opens with the start method and closes with the finishing
/// method.
pub proof fn lemma_declaration_order(c: BuilderGenCtxV)
    requires
        declarations(c) is Ok,
    ensures
        declarations(c)->Ok_0.len() == 4,
        declarations(c)->Ok_0[0].kind == DeclKind::BuilderType,
        declarations(c)->Ok_0[1].kind == DeclKind::StateTrait,
        declarations(c)->Ok_0[2].kind == DeclKind::PrivateImpl,
        declarations(c)->Ok_0[3].kind == DeclKind::ImplBlock,
        declarations(c)->Ok_0[3].methods.first() == start_method(c),
        declarations(c)->Ok_0[3].methods.last() == finish_method(c),
{
    let head = seq![start_method(c)];
    lemma_setters_keep_head(head, c.fields, c.fields.len() as int, c.vis, c.finish_func.ident);
    let ms = with_setters(head, c.fields, c.fields.len() as int, c.vis, c.finish_func.ident)->Ok_0;
    assert(ms[0] == head[0]);
    assert(ms.push(finish_method(c))[0] == ms[0]);
}

/// Adding setters leaves the methods that were there in place.
pub proof fn lemma_setters_keep_head(
    ms: Seq<MethodV>,
    fields: Seq<FieldV>,
    k: int,
    vis: Visibility,
    finish: Seq<char>,
)
    requires
        with_setters(ms, fields, k, vis, finish) is Ok,
    ensures
        with_setters(ms, fields, k, vis, finish)->Ok_0.len() >= ms.len(),
        forall|j: int|
            0 <= j < ms.len() ==> with_setters(ms, fields, k, vis, finish)->Ok_0[j] == ms[j],
    decreases k,
{
    if k > 0 {
        lemma_setters_keep_head(ms, fields, k - 1, vis, finish);
    }
}

/// `Default::default()`.
pub open spec fn default_call() -> Seq<TokenV> {
    seq![
        ident_tok("Default"@),
        punct_tok("::"@),
        ident_tok("default"@),
        open_tok("("@),
        close_tok(")"@),
    ]
}

/// The expression that gives a field its final value: what was handed
/// to its setter; for a field that was left out, its configured default,
/// the absence value `None` where it is optional without one, and the
/// default value of its type otherwise.
pub open spec fn resolved_expr(f: FieldV, given: Option<Seq<TokenV>>) -> Seq<TokenV> {
    match given {
        Some(e) => e,
        None => match f.params.default {
            Some(d) => if d.len() > 0 {
                d
            } else {
                default_call()
            },
            None => if f.optional {
                seq![ident_tok("None"@)]
            } else {
                default_call()
            },
        },
    }
}

/// Each field's name with its final expression.
pub open spec fn resolved_exprs(fields: Seq<FieldV>, given: Seq<Option<Seq<TokenV>>>) -> Seq<
    FieldExprV,
> {
    Seq::new(
        fields.len(),
        |i: int| FieldExprV { ident: fields[i].ident, expr: resolved_expr(fields[i], given[i]) },
    )
}

/// Every mandatory field was handed a value.
pub open spec fn all_mandatory_given(fields: Seq<FieldV>, given: Seq<Option<Seq<TokenV>>>) -> bool {
    forall|i: int| 0 <= i < fields.len() && is_mandatory(#[trigger] fields[i]) ==> given[i] is Some
}

/// The expression that gives a field its final value.
pub fn resolve_expr(f: &Field, given: &Option<Vec<Token>>) -> (e: Vec<Token>)
    ensures
        e.deep_view() == resolved_expr(f.deep_view(), given.deep_view()),
{
    match given {
        Some(e) => dup_vec(e),
        None => {
            let mut e: Vec<Token> = Vec::new();
            assert(e.deep_view() =~= Seq::empty());
            match &f.params.default {
                Some(d) => {
                    if d.len() > 0 {
                        return dup_vec(d);
                    }
                },
                None => {
                    if f.optional {
                        push_token(&mut e, TokenKind::Ident, "None");
                        assert(e.deep_view() =~= seq![ident_tok("None"@)]);
                        return e;
                    }
                },
            }
            push_token(&mut e, TokenKind::Ident, "Default");
            push_token(&mut e, TokenKind::Punct, "::");
            push_token(&mut e, TokenKind::Ident, "default");
            push_token(&mut e, TokenKind::Open, "(");
            push_token(&mut e, TokenKind::Close, ")");
            assert(e.deep_view() =~= default_call());
            e
        },
    }
}

/// Whether every mandatory field was handed a value.
pub fn mandatory_given(fields: &Vec<Field>, given: &Vec<Option<Vec<Token>>>) -> (b: bool)
    requires
        given.len() == fields.len(),
    ensures
        b == all_mandatory_given(fields.deep_view(), given.deep_view()),
{
    let mut i: usize = 0;
    while i < fields.len()
        invariant
            i <= fields.len(),
            given.len() == fields.len(),
            forall|j: int|
                0 <= j < i && is_mandatory(#[trigger] fields.deep_view()[j])
                    ==> given.deep_view()[j] is Some,
        decreases fields.len() - i,
    {
        if fields[i].mandatory() && given[i].is_none() {
            assert(is_mandatory(fields.deep_view()[i as int]));
            assert(given.deep_view()[i as int] is None);
            return false;
        }
        i += 1;
    }
    true
}

impl BuilderGenCtx {
    /// The body of the finishing method, tested while the program runs:
    /// it is written exactly when there is one entry for each field and
    /// none of a mandatory field is missing.
    pub fn try_finish_body(&self, given: &Vec<Option<Vec<Token>>>) -> (r: Option<Vec<Token>>)
        ensures
            r is Some <==> given.len() == self.fields.len() && all_mandatory_given(
                self.fields.deep_view(),
                given.deep_view(),
            ),
            r is Some ==> r->0.deep_view() == body_tokens(
                self.finish_func.body.deep_view(),
                resolved_exprs(self.fields.deep_view(), given.deep_view()),
            ),
    {
        if given.len() != self.fields.len() {
            return None;
        }
        if !mandatory_given(&self.fields, given) {
            return None;
        }
        Some(self.finish_body(given))
    }

    /// The body of the finishing method for the expressions handed to
    /// the setters, `None` standing for a setter that was not called:
    /// the struct literal, or the call, that gives every field its final
    /// value.
    pub fn finish_body(&self, given: &Vec<Option<Vec<Token>>>) -> (out: Vec<Token>)
        requires
            given.len() == self.fields.len(),
            all_mandatory_given(self.fields.deep_view(), given.deep_view()),
        ensures
            out.deep_view() == body_tokens(
                self.finish_func.body.deep_view(),
                resolved_exprs(self.fields.deep_view(), given.deep_view()),
            ),
    {
        let mut exprs: Vec<FieldExpr> = Vec::new();
        let mut i: usize = 0;
        while i < self.fields.len()
            invariant
                i <= self.fields.len(),
                given.len() == self.fields.len(),
                exprs.len() == i,
                forall|j: int|
                    0 <= j < i ==> exprs[j].deep_view() == (FieldExprV {
                        ident: self.fields[j].ident@,
                        expr: resolved_expr(self.fields[j].deep_view(), given[j].deep_view()),
                    }),
            decreases self.fields.len() - i,
        {
            let f = &self.fields[i];
            exprs.push(FieldExpr { ident: f.ident.clone(), expr: resolve_expr(f, &given[i]) });
            i += 1;
        }
        assert(exprs.deep_view() =~= resolved_exprs(self.fields.deep_view(), given.deep_view()));
        self.finish_func.body.gen(&exprs)
    }
}

/// One generic parameter as it is declared: `const` before a constant,
/// the name, and the bounds or the type after it.
pub open spec fn param_decl(p: GenericParamV) -> Seq<TokenV> {
    (if p.kind == ParamKind::Const {
        seq![ident_tok("const"@)]
    } else {
        Seq::empty()
    }) + seq![param_arg(p)] + p.bounds
}

/// `decl,` for each generic parameter, in order.
pub open spec fn param_decls(ps: Seq<GenericParamV>) -> Seq<TokenV>
    decreases ps.len(),
{
    if ps.len() == 0 {
        Seq::empty()
    } else {
        param_decls(ps.drop_last()) + param_decl(ps.last()) + seq![punct_tok(","@)]
    }
}

/// `<decl, decl, >`: the list that declares the generic parameters.
pub open spec fn generics_decl(ps: Seq<GenericParamV>) -> Seq<TokenV> {
    seq![punct_tok("<"@)] + param_decls(ps) + seq![punct_tok(">"@)]
}

/// `where` and the predicates, where there are any.
pub open spec fn where_tokens(w: Option<Seq<TokenV>>) -> Seq<TokenV> {
    match w {
        Some(ts) => seq![ident_tok("where"@)] + ts,
        None => Seq::empty(),
    }
}

/// The words that state a visibility.
pub open spec fn vis_tokens(vis: Visibility) -> Seq<TokenV> {
    match vis {
        Visibility::Inherited => Seq::empty(),
        Visibility::Public => seq![ident_tok("pub"@)],
        Visibility::Crate => seq![
            ident_tok("pub"@),
            open_tok("("@),
            ident_tok("crate"@),
            close_tok(")"@),
        ],
    }
}

/// The keyword that opens a declaration of the given role.
pub open spec fn keyword(kind: DeclKind) -> Seq<char> {
    match kind {
        DeclKind::BuilderType => "struct"@,
        DeclKind::StateTrait => "trait"@,
        DeclKind::PrivateImpl => "struct"@,
        DeclKind::ImplBlock => "impl"@,
    }
}

/// The signature of a declaration. A type or a trait states its
/// visibility, its keyword and its name and then declares the generic
/// parameters; a block of methods declares them after `impl` and applies
/// the type to them. The where clause closes both.
pub open spec fn header(d: DeclarationV) -> Seq<TokenV> {
    if d.kind == DeclKind::ImplBlock {
        seq![ident_tok(keyword(d.kind))] + generics_decl(d.generics.params) + applied_type(
            d.ident,
            d.generics.params,
        ) + where_tokens(d.generics.where_clause)
    } else {
        vis_tokens(d.vis) + seq![ident_tok(keyword(d.kind)), ident_tok(d.ident)] + generics_decl(
            d.generics.params,
        ) + where_tokens(d.generics.where_clause)
    }
}

/// Appends the list that declares the generic parameters.
pub fn push_generics_decl(dst: &mut Vec<Token>, ps: &Vec<GenericParam>)
    ensures
        final(dst).deep_view() == old(dst).deep_view() + generics_decl(ps.deep_view()),
{
    let ghost start = dst.deep_view();
    let ghost all = ps.deep_view();
    push_token(dst, TokenKind::Punct, "<");
    let ghost head = start + seq![punct_tok("<"@)];
    assert(dst.deep_view() =~= head);
    assert(all.take(0) =~= Seq::empty());
    let mut i: usize = 0;
    while i < ps.len()
        invariant
            i <= ps.len(),
            all == ps.deep_view(),
            dst.deep_view() == head + param_decls(all.take(i as int)),
        decreases ps.len() - i,
    {
        let p = &ps[i];
        let ghost before = dst.deep_view();
        proof {
            assert(all.take(i + 1).drop_last() =~= all.take(i as int));
            assert(all.take(i + 1).last() == p.deep_view());
        }
        match p.kind {
            ParamKind::Const => {
                push_token(dst, TokenKind::Ident, "const");
            },
            _ => {},
        }
        let ghost mid = dst.deep_view();
        dst.push(generic_param_to_arg(p));
        assert(dst.deep_view() =~= mid.push(param_arg(p.deep_view())));
        push_all(dst, &p.bounds);
        push_token(dst, TokenKind::Punct, ",");
        assert(dst.deep_view() =~= before + param_decl(p.deep_view()) + seq![punct_tok(","@)]);
        assert(dst.deep_view() =~= head + param_decls(all.take(i + 1)));
        i += 1;
    }
    assert(all.take(i as int) =~= all);
    push_token(dst, TokenKind::Punct, ">");
    assert(dst.deep_view() =~= start + generics_decl(all));
}

impl Declaration {
    /// Writes the signature of the declaration.
    pub fn header(&self) -> (out: Vec<Token>)
        ensures
            out.deep_view() == header(self.deep_view()),
    {
        let mut out: Vec<Token> = Vec::new();
        assert(out.deep_view() =~= Seq::empty());
        match self.kind {
            DeclKind::ImplBlock => {
                push_token(&mut out, TokenKind::Ident, "impl");
                push_generics_decl(&mut out, &self.generics.params);
                let ty = make_applied_type(&self.ident, &self.generics.params);
                push_all(&mut out, &ty);
            },
            _ => {
                match self.vis {
                    Visibility::Inherited => {},
                    Visibility::Public => {
                        push_token(&mut out, TokenKind::Ident, "pub");
                    },
                    Visibility::Crate => {
                        push_token(&mut out, TokenKind::Ident, "pub");
                        push_token(&mut out, TokenKind::Open, "(");
                        push_token(&mut out, TokenKind::Ident, "crate");
                        push_token(&mut out, TokenKind::Close, ")");
                    },
                }
                assert(out.deep_view() =~= vis_tokens(self.vis));
                match self.kind {
                    DeclKind::StateTrait => {
                        push_token(&mut out, TokenKind::Ident, "trait");
                    },
                    _ => {
                        push_token(&mut out, TokenKind::Ident, "struct");
                    },
                }
                push_token(&mut out, TokenKind::Ident, self.ident.as_str());
                push_generics_decl(&mut out, &self.generics.params);
            },
        }
        match &self.generics.where_clause {
            Some(ts) => {
                push_token(&mut out, TokenKind::Ident, "where");
                push_all(&mut out, ts);
            },
            None => {},
        }
        assert(out.deep_view() =~= header(self.deep_view()));
        out
    }
}

/// The signature of every generated declaration holds the list that
/// declares the generic parameters of the builder, whole and in one
/// piece: lifetimes, types and constants alike.
pub proof fn lemma_every_header_declares_the_generics(c: BuilderGenCtxV, i: int)
    requires
        declarations(c) is Ok,
        0 <= i < declarations(c)->Ok_0.len(),
    ensures
        exists|from: int|
            0 <= from && from + generics_decl(c.generics.params).len() <= header(
                declarations(c)->Ok_0[i],
            ).len() && #[trigger] header(declarations(c)->Ok_0[i]).subrange(
                from,
                from + generics_decl(c.generics.params).len(),
            ) == generics_decl(c.generics.params),
{
    let d = declarations(c)->Ok_0[i];
    let g = generics_decl(c.generics.params);
    let from = if d.kind == DeclKind::ImplBlock {
        1int
    } else {
        (vis_tokens(d.vis).len() + 2) as int
    };
    assert(header(d).subrange(from, from + g.len()) =~= g);
}

} // verus!
