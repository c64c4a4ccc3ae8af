//! The field model: one member of the builder, with the options written
//! on it and the optionality derived from them and from its type.

use crate::diag::{fail, Diagnostic, ErrorKind, Span};
use crate::syntax::{
    dup_vec, Attribute, AttributeV, Member, MemberV, MetaOption, MetaOptionV, Token, TokenKind,
    TokenV,
};
use vstd::prelude::*;
use vstd::string::StringExecFns;

verus! {

/// The options that can be written on a member.
#[derive(Clone, Debug, PartialEq, Eq)]
pub struct FieldParams {
    /// The member gets no setter and always takes its default.
    pub skip: bool,
    /// The expression used when the setter is not called; an empty run
    /// stands for the default value of the type.
    pub default: Option<Vec<Token>>,
    /// The setter accepts whatever converts into the member's type.
    pub into: bool,
    /// The name of the setter, where it differs from the member's.
    pub name: Option<String>,
}

pub ghost struct FieldParamsV {
    pub skip: bool,
    pub default: Option<Seq<TokenV>>,
    pub into: bool,
    pub name: Option<Seq<char>>,
}

impl DeepView for FieldParams {
    type V = FieldParamsV;

    open spec fn deep_view(&self) -> FieldParamsV {
        FieldParamsV {
            skip: self.skip,
            default: self.default.deep_view(),
            into: self.into,
            name: self.name.deep_view(),
        }
    }
}

/// One member as the builder sees it.
#[derive(Clone, Debug, PartialEq, Eq)]
pub struct Field {
    pub ident: String,
    pub ty: Vec<Token>,
    pub params: FieldParams,
    /// Whether the finishing call may be made without this member set.
    pub optional: bool,
    pub span: Span,
}

pub ghost struct FieldV {
    pub ident: Seq<char>,
    pub ty: Seq<TokenV>,
    pub params: FieldParamsV,
    pub optional: bool,
    pub span: Span,
}

impl DeepView for Field {
    type V = FieldV;

    open spec fn deep_view(&self) -> FieldV {
        FieldV {
            ident: self.ident@,
            ty: self.ty.deep_view(),
            params: self.params.deep_view(),
            optional: self.optional,
            span: self.span,
        }
    }
}

pub open spec fn no_params() -> FieldParamsV {
    FieldParamsV { skip: false, default: None, into: false, name: None }
}

/// The effect of one option on the options read so far. `skip` and `into`
/// take no value, `name` takes exactly one identifier, `default` takes an
/// expression or nothing. An unknown key is invalid; an option written
/// twice, and `skip` together with `default`, are in conflict.
pub open spec fn apply_option(p: FieldParamsV, o: MetaOptionV) -> Result<FieldParamsV, Diagnostic> {
    if o.key == "skip"@ {
        if o.value is Some {
            Err(fail(ErrorKind::InvalidOption, o.span))
        } else if p.skip || p.default is Some {
            Err(fail(ErrorKind::ConflictingOption, o.span))
        } else {
            Ok(FieldParamsV { skip: true, ..p })
        }
    } else if o.key == "default"@ {
        if p.skip || p.default is Some {
            Err(fail(ErrorKind::ConflictingOption, o.span))
        } else {
            Ok(
                FieldParamsV {
                    default: Some(
                        match o.value {
                            Some(v) => v,
                            None => Seq::empty(),
                        },
                    ),
                    ..p
                },
            )
        }
    } else if o.key == "into"@ {
        if o.value is Some {
            Err(fail(ErrorKind::InvalidOption, o.span))
        } else if p.into {
            Err(fail(ErrorKind::ConflictingOption, o.span))
        } else {
            Ok(FieldParamsV { into: true, ..p })
        }
    } else if o.key == "name"@ {
        if o.value is Some && o.value->0.len() == 1 && o.value->0[0].kind == TokenKind::Ident {
            if p.name is Some {
                Err(fail(ErrorKind::ConflictingOption, o.span))
            } else {
                Ok(FieldParamsV { name: Some(o.value->0[0].text), ..p })
            }
        } else {
            Err(fail(ErrorKind::InvalidOption, o.span))
        }
    } else {
        Err(fail(ErrorKind::InvalidOption, o.span))
    }
}

/// The options of a list applied from left to right; the first failure
/// ends the reading.
pub open spec fn apply_options(p: FieldParamsV, os: Seq<MetaOptionV>) -> Result<
    FieldParamsV,
    Diagnostic,
>
    decreases os.len(),
{
    if os.len() == 0 {
        Ok(p)
    } else {
        match apply_options(p, os.drop_last()) {
            Ok(q) => apply_option(q, os.last()),
            Err(e) => Err(e),
        }
    }
}

/// Whether an attribute configures the builder.
pub open spec fn is_builder_attr(a: AttributeV) -> bool {
    a.path.len() == 1 && a.path[0] == "builder"@
}

/// The options of all configuring attributes of a list, applied in order.
pub open spec fn apply_attrs(p: FieldParamsV, attrs: Seq<AttributeV>) -> Result<
    FieldParamsV,
    Diagnostic,
>
    decreases attrs.len(),
{
    if attrs.len() == 0 {
        Ok(p)
    } else {
        match apply_attrs(p, attrs.drop_last()) {
            Ok(q) => if is_builder_attr(attrs.last()) {
                apply_options(q, attrs.last().options)
            } else {
                Ok(q)
            },
            Err(e) => Err(e),
        }
    }
}

/// Whether a type is written as the optional wrapper.
pub open spec fn is_option_type(ty: Seq<TokenV>) -> bool {
    ty.len() >= 2 && ty[0].kind == TokenKind::Ident && ty[0].text == "Option"@ && ty[1].kind
        == TokenKind::Punct && ty[1].text == "<"@
}

/// The field made from a name, a type and the attributes beside them.
pub open spec fn new_field(attrs: Seq<AttributeV>, ident: Seq<char>, ty: Seq<TokenV>, span: Span)
    -> Result<FieldV, Diagnostic> {
    match apply_attrs(no_params(), attrs) {
        Ok(p) => Ok(
            FieldV { ident, ty, params: p, optional: p.default is Some || is_option_type(ty), span },
        ),
        Err(e) => Err(e),
    }
}

/// The field made from a member of a struct body: a member without a
/// name is refused.
pub open spec fn field_of(m: MemberV) -> Result<FieldV, Diagnostic> {
    match m.name {
        Some(n) => new_field(m.attrs, n, m.ty, m.span),
        None => Err(fail(ErrorKind::UnnamedMember, m.span)),
    }
}

/// A field must be set before the finishing call unless it is optional
/// or skipped.
pub open spec fn is_mandatory(f: FieldV) -> bool {
    !f.optional && !f.params.skip
}

pub open spec fn field_result_view(r: Result<Field, Diagnostic>) -> Result<FieldV, Diagnostic> {
    match r {
        Ok(f) => Ok(f.deep_view()),
        Err(e) => Err(e),
    }
}

pub open spec fn params_result_view(r: Result<FieldParams, Diagnostic>) -> Result<
    FieldParamsV,
    Diagnostic,
> {
    match r {
        Ok(p) => Ok(p.deep_view()),
        Err(e) => Err(e),
    }
}

/// A failure on a prefix of the options is the failure of the whole list.
pub proof fn lemma_options_prefix_err(p: FieldParamsV, os: Seq<MetaOptionV>, k: int)
    requires
        0 <= k <= os.len(),
        apply_options(p, os.take(k)) is Err,
    ensures
        apply_options(p, os) == apply_options(p, os.take(k)),
    decreases os.len() - k,
{
    if k < os.len() {
        assert(os.take(k + 1).drop_last() =~= os.take(k));
        lemma_options_prefix_err(p, os, k + 1);
    } else {
        assert(os.take(k) =~= os);
    }
}

/// A failure on a prefix of the attributes is the failure of the whole list.
pub proof fn lemma_attrs_prefix_err(p: FieldParamsV, attrs: Seq<AttributeV>, k: int)
    requires
        0 <= k <= attrs.len(),
        apply_attrs(p, attrs.take(k)) is Err,
    ensures
        apply_attrs(p, attrs) == apply_attrs(p, attrs.take(k)),
    decreases attrs.len() - k,
{
    if k < attrs.len() {
        assert(attrs.take(k + 1).drop_last() =~= attrs.take(k));
        lemma_attrs_prefix_err(p, attrs, k + 1);
    } else {
        assert(attrs.take(k) =~= attrs);
    }
}

/// Whether an attribute configures the builder.
pub fn attr_is_builder(a: &Attribute) -> (b: bool)
    ensures
        b == is_builder_attr(a.deep_view()),
{
    if a.path.len() != 1 {
        return false;
    }
    let word = String::from_str("builder");
    a.path[0] == word
}

impl FieldParams {
    /// No option at all.
    pub fn empty() -> (p: FieldParams)
        ensures
            p.deep_view() == no_params(),
    {
        FieldParams { skip: false, default: None, into: false, name: None }
    }

    /// Takes one more option into account.
    pub fn apply(self, o: &MetaOption) -> (r: Result<FieldParams, Diagnostic>)
        ensures
            params_result_view(r) == apply_option(self.deep_view(), o.deep_view()),
    {
        let here = o.span;
        if o.key == String::from_str("skip") {
            if o.value.is_some() {
                Err(Diagnostic { kind: ErrorKind::InvalidOption, span: here })
            } else if self.skip || self.default.is_some() {
                Err(Diagnostic { kind: ErrorKind::ConflictingOption, span: here })
            } else {
                Ok(
                    FieldParams {
                        skip: true,
                        default: self.default,
                        into: self.into,
                        name: self.name,
                    },
                )
            }
        } else if o.key == String::from_str("default") {
            if self.skip || self.default.is_some() {
                Err(Diagnostic { kind: ErrorKind::ConflictingOption, span: here })
            } else {
                let expr: Vec<Token> = match &o.value {
                    Some(v) => dup_vec(v),
                    None => {
                        let e: Vec<Token> = Vec::new();
                        assert(e.deep_view() =~= Seq::empty());
                        e
                    },
                };
                Ok(
                    FieldParams {
                        skip: self.skip,
                        default: Some(expr),
                        into: self.into,
                        name: self.name,
                    },
                )
            }
        } else if o.key == String::from_str("into") {
            if o.value.is_some() {
                Err(Diagnostic { kind: ErrorKind::InvalidOption, span: here })
            } else if self.into {
                Err(Diagnostic { kind: ErrorKind::ConflictingOption, span: here })
            } else {
                Ok(
                    FieldParams {
                        skip: self.skip,
                        default: self.default,
                        into: true,
                        name: self.name,
                    },
                )
            }
        } else if o.key == String::from_str("name") {
            match &o.value {
                Some(v) => {
                    if v.len() == 1 && token_is_ident(&v[0]) {
                        if self.name.is_some() {
                            Err(Diagnostic { kind: ErrorKind::ConflictingOption, span: here })
                        } else {
                            Ok(
                                FieldParams {
                                    skip: self.skip,
                                    default: self.default,
                                    into: self.into,
                                    name: Some(v[0].text.clone()),
                                },
                            )
                        }
                    } else {
                        Err(Diagnostic { kind: ErrorKind::InvalidOption, span: here })
                    }
                },
                None => Err(Diagnostic { kind: ErrorKind::InvalidOption, span: here }),
            }
        } else {
            Err(Diagnostic { kind: ErrorKind::InvalidOption, span: here })
        }
    }

    /// Reads the options of every configuring attribute of a list.
    pub fn from_attrs(attrs: &Vec<Attribute>) -> (r: Result<FieldParams, Diagnostic>)
        ensures
            params_result_view(r) == apply_attrs(no_params(), attrs.deep_view()),
    {
        let ghost all = attrs.deep_view();
        let mut p = FieldParams::empty();
        let mut i: usize = 0;
        assert(all.take(0) =~= Seq::empty());
        while i < attrs.len()
            invariant
                i <= attrs.len(),
                all == attrs.deep_view(),
                apply_attrs(no_params(), all.take(i as int)) == Ok::<FieldParamsV, Diagnostic>(
                    p.deep_view(),
                ),
            decreases attrs.len() - i,
        {
            let a = &attrs[i];
            let ghost before = p.deep_view();
            proof {
                assert(all.take(i + 1).drop_last() =~= all.take(i as int));
                assert(all.take(i + 1).last() == a.deep_view());
            }
            if attr_is_builder(a) {
                let ghost os = a.options.deep_view();
                let mut j: usize = 0;
                assert(os.take(0) =~= Seq::empty());
                while j < a.options.len()
                    invariant
                        j <= a.options.len(),
                        i < attrs.len(),
                        all == attrs.deep_view(),
                        os == a.options.deep_view(),
                        all.take(i + 1).last().options == os,
                        is_builder_attr(all.take(i + 1).last()),
                        all.take(i + 1).drop_last() == all.take(i as int),
                        apply_attrs(no_params(), all.take(i as int)) == Ok::<
                            FieldParamsV,
                            Diagnostic,
                        >(before),
                        apply_options(before, os.take(j as int)) == Ok::<
                            FieldParamsV,
                            Diagnostic,
                        >(p.deep_view()),
                    decreases a.options.len() - j,
                {
                    proof {
                        assert(os.take(j + 1).drop_last() =~= os.take(j as int));
                        assert(os.take(j + 1).last() == a.options[j as int].deep_view());
                    }
                    match p.apply(&a.options[j]) {
                        Ok(q) => {
                            p = q;
                        },
                        Err(e) => {
                            proof {
                                lemma_options_prefix_err(before, os, j + 1);
                                lemma_attrs_prefix_err(no_params(), all, i + 1);
                            }
                            return Err(e);
                        },
                    }
                    j += 1;
                }
                assert(os.take(j as int) =~= os);
            }
            i += 1;
        }
        assert(all.take(i as int) =~= all);
        Ok(p)
    }
}

/// Whether a token is an identifier.
pub fn token_is_ident(t: &Token) -> (b: bool)
    ensures
        b == (t.kind == TokenKind::Ident),
{
    match t.kind {
        TokenKind::Ident => true,
        _ => false,
    }
}

/// Whether a token is a punctuation mark.
pub fn token_is_punct(t: &Token) -> (b: bool)
    ensures
        b == (t.kind == TokenKind::Punct),
{
    match t.kind {
        TokenKind::Punct => true,
        _ => false,
    }
}

/// Whether a type is written as the optional wrapper.
pub fn type_is_option(ty: &Vec<Token>) -> (b: bool)
    ensures
        b == is_option_type(ty.deep_view()),
{
    if ty.len() < 2 {
        return false;
    }
    token_is_ident(&ty[0]) && ty[0].text == String::from_str("Option") && token_is_punct(&ty[1])
        && ty[1].text == String::from_str("<")
}

impl Field {
    /// Makes the field for a name and a type, reading its options from
    /// the attributes beside them.
    pub fn new(attrs: &Vec<Attribute>, ident: String, ty: Vec<Token>, span: Span) -> (r: Result<
        Field,
        Diagnostic,
    >)
        ensures
            field_result_view(r) == new_field(attrs.deep_view(), ident@, ty.deep_view(), span),
    {
        match FieldParams::from_attrs(attrs) {
            Ok(params) => {
                let optional = params.default.is_some() || type_is_option(&ty);
                Ok(Field { ident, ty, params, optional, span })
            },
            Err(e) => Err(e),
        }
    }

    /// Makes the field for a member of a struct body. Succeeds exactly
    /// when the member has a name and its options are sound.
    pub fn from_syn_field(field: &Member) -> (r: Result<Field, Diagnostic>)
        ensures
            field_result_view(r) == field_of(field.deep_view()),
    {
        match &field.name {
            Some(name) => Field::new(&field.attrs, name.clone(), dup_vec(&field.ty), field.span),
            None => Err(Diagnostic { kind: ErrorKind::UnnamedMember, span: field.span }),
        }
    }

    /// Whether the field must be set before the finishing call.
    pub fn mandatory(&self) -> (b: bool)
        ensures
            b == is_mandatory(self.deep_view()),
    {
        !self.optional && !self.params.skip
    }
}

} // verus!
