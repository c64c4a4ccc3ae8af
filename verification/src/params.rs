//! The options written on the declaration as a whole.

use crate::diag::{fail, Diagnostic, ErrorKind, Span};
use crate::syntax::{MetaOption, MetaOptionV, Token, TokenKind, TokenV, Visibility};
use vstd::prelude::*;
use vstd::string::StringExecFns;

verus! {

/// How a generated method is named and who may see it.
#[derive(Clone, Debug, PartialEq, Eq)]
pub struct ItemParams {
    pub name: Option<String>,
    pub vis: Option<Visibility>,
}

pub ghost struct ItemParamsV {
    pub name: Option<Seq<char>>,
    pub vis: Option<Visibility>,
}

impl DeepView for ItemParams {
    type V = ItemParamsV;

    open spec fn deep_view(&self) -> ItemParamsV {
        ItemParamsV { name: self.name.deep_view(), vis: self.vis }
    }
}

/// The options every kind of input shares.
#[derive(Clone, Debug, PartialEq, Eq)]
pub struct BuilderParams {
    pub finish_fn: Option<String>,
    pub builder_type: Option<String>,
}

pub ghost struct BuilderParamsV {
    pub finish_fn: Option<Seq<char>>,
    pub builder_type: Option<Seq<char>>,
}

impl DeepView for BuilderParams {
    type V = BuilderParamsV;

    open spec fn deep_view(&self) -> BuilderParamsV {
        BuilderParamsV {
            finish_fn: self.finish_fn.deep_view(),
            builder_type: self.builder_type.deep_view(),
        }
    }
}

/// The options of a struct input.
#[derive(Clone, Debug, PartialEq, Eq)]
pub struct StructInputParams {
    pub base: BuilderParams,
    pub start_fn: Option<ItemParams>,
}

pub ghost struct StructInputParamsV {
    pub base: BuilderParamsV,
    pub start_fn: Option<ItemParamsV>,
}

impl DeepView for StructInputParams {
    type V = StructInputParamsV;

    open spec fn deep_view(&self) -> StructInputParamsV {
        StructInputParamsV { base: self.base.deep_view(), start_fn: self.start_fn.deep_view() }
    }
}

/// The one identifier that an option's value consists of, if it does.
pub open spec fn single_ident(v: Option<Seq<TokenV>>) -> Option<Seq<char>> {
    match v {
        Some(ts) => if ts.len() == 1 && ts[0].kind == TokenKind::Ident {
            Some(ts[0].text)
        } else {
            None
        },
        None => None,
    }
}

/// The visibility that a word stands for.
pub open spec fn vis_of(word: Seq<char>) -> Option<Visibility> {
    if word == "pub"@ {
        Some(Visibility::Public)
    } else if word == "crate"@ {
        Some(Visibility::Crate)
    } else if word == "private"@ {
        Some(Visibility::Inherited)
    } else {
        None
    }
}

/// The declaration-level options read so far.
#[derive(Clone, Debug, PartialEq, Eq)]
pub struct DeclOptions {
    pub builder_type: Option<String>,
    pub finish_fn: Option<String>,
    pub start_fn: Option<String>,
    pub start_fn_vis: Option<Visibility>,
    /// Where the visibility of the start method was written.
    pub vis_span: Span,
}

pub ghost struct DeclOptionsV {
    pub builder_type: Option<Seq<char>>,
    pub finish_fn: Option<Seq<char>>,
    pub start_fn: Option<Seq<char>>,
    pub start_fn_vis: Option<Visibility>,
    pub vis_span: Span,
}

impl DeepView for DeclOptions {
    type V = DeclOptionsV;

    open spec fn deep_view(&self) -> DeclOptionsV {
        DeclOptionsV {
            builder_type: self.builder_type.deep_view(),
            finish_fn: self.finish_fn.deep_view(),
            start_fn: self.start_fn.deep_view(),
            start_fn_vis: self.start_fn_vis,
            vis_span: self.vis_span,
        }
    }
}

pub open spec fn no_decl_options() -> DeclOptionsV {
    DeclOptionsV {
        builder_type: None,
        finish_fn: None,
        start_fn: None,
        start_fn_vis: None,
        vis_span: Span { lo: 0, hi: 0 },
    }
}

/// The effect of one option of the declaration. The keys are
/// `builder_type`, `finish_fn`, `start_fn` and `start_fn_vis`; each takes
/// one identifier, the last one of `pub`, `crate` and `private`. Anything
/// else is invalid, and a key written twice is in conflict.
pub open spec fn apply_decl_option(a: DeclOptionsV, o: MetaOptionV) -> Result<
    DeclOptionsV,
    Diagnostic,
> {
    match single_ident(o.value) {
        None => Err(fail(ErrorKind::InvalidOption, o.span)),
        Some(word) => if o.key == "builder_type"@ {
            if a.builder_type is Some {
                Err(fail(ErrorKind::ConflictingOption, o.span))
            } else {
                Ok(DeclOptionsV { builder_type: Some(word), ..a })
            }
        } else if o.key == "finish_fn"@ {
            if a.finish_fn is Some {
                Err(fail(ErrorKind::ConflictingOption, o.span))
            } else {
                Ok(DeclOptionsV { finish_fn: Some(word), ..a })
            }
        } else if o.key == "start_fn"@ {
            if a.start_fn is Some {
                Err(fail(ErrorKind::ConflictingOption, o.span))
            } else {
                Ok(DeclOptionsV { start_fn: Some(word), ..a })
            }
        } else if o.key == "start_fn_vis"@ {
            match vis_of(word) {
                None => Err(fail(ErrorKind::InvalidOption, o.span)),
                Some(v) => if a.start_fn_vis is Some {
                    Err(fail(ErrorKind::ConflictingOption, o.span))
                } else {
                    Ok(DeclOptionsV { start_fn_vis: Some(v), vis_span: o.span, ..a })
                },
            }
        } else {
            Err(fail(ErrorKind::InvalidOption, o.span))
        },
    }
}

/// The options of a list applied from left to right; the first failure
/// ends the reading.
pub open spec fn apply_decl_options(a: DeclOptionsV, os: Seq<MetaOptionV>) -> Result<
    DeclOptionsV,
    Diagnostic,
>
    decreases os.len(),
{
    if os.len() == 0 {
        Ok(a)
    } else {
        match apply_decl_options(a, os.drop_last()) {
            Ok(b) => apply_decl_option(b, os.last()),
            Err(e) => Err(e),
        }
    }
}

/// The configuration that a list of options stands for. The visibility
/// of the start method depends on its name: given without the name, it
/// is refused as missing what it requires.
pub open spec fn validated(os: Seq<MetaOptionV>) -> Result<StructInputParamsV, Diagnostic> {
    match apply_decl_options(no_decl_options(), os) {
        Ok(a) => if a.start_fn_vis is Some && a.start_fn is None {
            Err(fail(ErrorKind::MissingRequiredOption, a.vis_span))
        } else {
            Ok(
                StructInputParamsV {
                    base: BuilderParamsV { finish_fn: a.finish_fn, builder_type: a.builder_type },
                    start_fn: if a.start_fn is Some {
                        Some(ItemParamsV { name: a.start_fn, vis: a.start_fn_vis })
                    } else {
                        None
                    },
                },
            )
        },
        Err(e) => Err(e),
    }
}

pub open spec fn decl_result_view(r: Result<DeclOptions, Diagnostic>) -> Result<
    DeclOptionsV,
    Diagnostic,
> {
    match r {
        Ok(a) => Ok(a.deep_view()),
        Err(e) => Err(e),
    }
}

pub open spec fn params_view(r: Result<StructInputParams, Diagnostic>) -> Result<
    StructInputParamsV,
    Diagnostic,
> {
    match r {
        Ok(p) => Ok(p.deep_view()),
        Err(e) => Err(e),
    }
}

/// A failure on a prefix of the options is the failure of the whole list.
pub proof fn lemma_decl_prefix_err(a: DeclOptionsV, os: Seq<MetaOptionV>, k: int)
    requires
        0 <= k <= os.len(),
        apply_decl_options(a, os.take(k)) is Err,
    ensures
        apply_decl_options(a, os) == apply_decl_options(a, os.take(k)),
    decreases os.len() - k,
{
    if k < os.len() {
        assert(os.take(k + 1).drop_last() =~= os.take(k));
        lemma_decl_prefix_err(a, os, k + 1);
    } else {
        assert(os.take(k) =~= os);
    }
}

/// The one identifier that an option's value consists of, if it does.
pub fn value_ident(v: &Option<Vec<Token>>) -> (r: Option<String>)
    ensures
        r.deep_view() == single_ident(v.deep_view()),
{
    match v {
        Some(ts) => {
            if ts.len() != 1 {
                return None;
            }
            match ts[0].kind {
                TokenKind::Ident => Some(ts[0].text.clone()),
                _ => None,
            }
        },
        None => None,
    }
}

/// The visibility that a word stands for.
pub fn parse_vis(word: &String) -> (r: Option<Visibility>)
    ensures
        r == vis_of(word@),
{
    if *word == String::from_str("pub") {
        Some(Visibility::Public)
    } else if *word == String::from_str("crate") {
        Some(Visibility::Crate)
    } else if *word == String::from_str("private") {
        Some(Visibility::Inherited)
    } else {
        None
    }
}

impl DeclOptions {
    /// No option at all.
    pub fn empty() -> (a: DeclOptions)
        ensures
            a.deep_view() == no_decl_options(),
    {
        DeclOptions {
            builder_type: None,
            finish_fn: None,
            start_fn: None,
            start_fn_vis: None,
            vis_span: Span { lo: 0, hi: 0 },
        }
    }

    /// Takes one more option into account.
    pub fn apply(self, o: &MetaOption) -> (r: Result<DeclOptions, Diagnostic>)
        ensures
            decl_result_view(r) == apply_decl_option(self.deep_view(), o.deep_view()),
    {
        let here = o.span;
        let word = match value_ident(&o.value) {
            Some(w) => w,
            None => {
                return Err(Diagnostic { kind: ErrorKind::InvalidOption, span: here });
            },
        };
        let DeclOptions { builder_type, finish_fn, start_fn, start_fn_vis, vis_span } = self;
        if o.key == String::from_str("builder_type") {
            if builder_type.is_some() {
                Err(Diagnostic { kind: ErrorKind::ConflictingOption, span: here })
            } else {
                Ok(
                    DeclOptions {
                        builder_type: Some(word),
                        finish_fn,
                        start_fn,
                        start_fn_vis,
                        vis_span,
                    },
                )
            }
        } else if o.key == String::from_str("finish_fn") {
            if finish_fn.is_some() {
                Err(Diagnostic { kind: ErrorKind::ConflictingOption, span: here })
            } else {
                Ok(
                    DeclOptions {
                        builder_type,
                        finish_fn: Some(word),
                        start_fn,
                        start_fn_vis,
                        vis_span,
                    },
                )
            }
        } else if o.key == String::from_str("start_fn") {
            if start_fn.is_some() {
                Err(Diagnostic { kind: ErrorKind::ConflictingOption, span: here })
            } else {
                Ok(
                    DeclOptions {
                        builder_type,
                        finish_fn,
                        start_fn: Some(word),
                        start_fn_vis,
                        vis_span,
                    },
                )
            }
        } else if o.key == String::from_str("start_fn_vis") {
            match parse_vis(&word) {
                None => Err(Diagnostic { kind: ErrorKind::InvalidOption, span: here }),
                Some(v) => {
                    if start_fn_vis.is_some() {
                        Err(Diagnostic { kind: ErrorKind::ConflictingOption, span: here })
                    } else {
                        Ok(
                            DeclOptions {
                                builder_type,
                                finish_fn,
                                start_fn,
                                start_fn_vis: Some(v),
                                vis_span: here,
                            },
                        )
                    }
                },
            }
        } else {
            Err(Diagnostic { kind: ErrorKind::InvalidOption, span: here })
        }
    }
}

impl StructInputParams {
    /// Reads and validates the options written on a struct, before
    /// anything is generated: the configuration, or the first failure.
    pub fn validate(options: &Vec<MetaOption>) -> (r: Result<StructInputParams, Diagnostic>)
        ensures
            params_view(r) == validated(options.deep_view()),
    {
        let ghost os = options.deep_view();
        let mut acc = DeclOptions::empty();
        let mut i: usize = 0;
        assert(os.take(0) =~= Seq::empty());
        while i < options.len()
            invariant
                i <= options.len(),
                os == options.deep_view(),
                apply_decl_options(no_decl_options(), os.take(i as int)) == Ok::<
                    DeclOptionsV,
                    Diagnostic,
                >(acc.deep_view()),
            decreases options.len() - i,
        {
            proof {
                assert(os.take(i + 1).drop_last() =~= os.take(i as int));
                assert(os.take(i + 1).last() == options[i as int].deep_view());
            }
            match acc.apply(&options[i]) {
                Ok(next) => {
                    acc = next;
                },
                Err(e) => {
                    proof {
                        lemma_decl_prefix_err(no_decl_options(), os, i + 1);
                    }
                    return Err(e);
                },
            }
            i += 1;
        }
        assert(os.take(i as int) =~= os);
        let DeclOptions { builder_type, finish_fn, start_fn, start_fn_vis, vis_span } = acc;
        if start_fn_vis.is_some() && start_fn.is_none() {
            return Err(Diagnostic { kind: ErrorKind::MissingRequiredOption, span: vis_span });
        }
        let start_fn = match start_fn {
            Some(name) => Some(ItemParams { name: Some(name), vis: start_fn_vis }),
            None => None,
        };
        Ok(StructInputParams { base: BuilderParams { finish_fn, builder_type }, start_fn })
    }
}

} // verus!
