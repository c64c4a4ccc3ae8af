//! What holds of the struct adapter and the generation taken together.

use crate::builder_gen::{
    body_tokens, declarations, ident_tok, resolved_expr, resolved_exprs, struct_literal,
    FieldExprV, FinishBodyV, StructLiteralBodyV,
};
use crate::diag::Diagnostic;
use crate::field::{field_of, FieldV};
use crate::input_struct::{applied_type, collect_fields, struct_builder, struct_input};
use crate::normalize::{
    lemma_subst_identity, lemma_subst_self_free, normalize_members, self_free, subst_self,
};
use crate::params::StructInputParamsV;
use crate::state::{after_calls, called, lemma_after_calls};
use crate::syntax::{FieldsShapeV, MemberV, StructDeclV, TokenV};
use vstd::prelude::*;

verus! {

/// Where the members of a list all make fields, there is one field for
/// each member, with the member's name and type.
pub proof fn lemma_fields_follow_members(ms: Seq<MemberV>)
    requires
        collect_fields(ms) is Ok,
    ensures
        collect_fields(ms)->Ok_0.len() == ms.len(),
        forall|i: int|
            0 <= i < ms.len() ==> {
                &&& ms[i].name == Some((#[trigger] collect_fields(ms)->Ok_0[i]).ident)
                &&& collect_fields(ms)->Ok_0[i].ty == ms[i].ty
                &&& collect_fields(ms)->Ok_0[i].span == ms[i].span
                &&& field_of(ms[i]) == Ok::<FieldV, Diagnostic>(
                    collect_fields(ms)->Ok_0[i],
                )
            },
    decreases ms.len(),
{
    if ms.len() > 0 {
        lemma_fields_follow_members(ms.drop_last());
    }
}

/// The generic parameters of a struct are declared again by every
/// declaration generated for it: as many, in the same order, each of its
/// kind (lifetime, type or constant) and under its name, the bounds with
/// the self type written out.
pub proof fn lemma_struct_generics_reach_every_declaration(
    params: StructInputParamsV,
    orig: StructDeclV,
    d: int,
    i: int,
)
    requires
        struct_builder(struct_input(params, orig)) is Ok,
        declarations(struct_builder(struct_input(params, orig))->Ok_0) is Ok,
        0 <= d < declarations(struct_builder(struct_input(params, orig))->Ok_0)->Ok_0.len(),
        0 <= i < orig.generics.len(),
    ensures
        ({
            let ds = declarations(struct_builder(struct_input(params, orig))->Ok_0)->Ok_0;
            let ty = applied_type(orig.name, orig.generics);
            &&& ds[d].generics.params.len() == orig.generics.len()
            &&& ds[d].generics.params[i].kind == orig.generics[i].kind
            &&& ds[d].generics.params[i].name == orig.generics[i].name
            &&& ds[d].generics.params[i].bounds == subst_self(orig.generics[i].bounds, ty)
        }),
{
}

/// No self type reaches the builder: the types of its fields, the bounds
/// of its generic parameters, its where clause and the type that its
/// finishing method returns are all free of it.
pub proof fn lemma_no_self_reaches_the_builder(params: StructInputParamsV, orig: StructDeclV)
    requires
        self_free(applied_type(orig.name, orig.generics)),
        struct_builder(struct_input(params, orig)) is Ok,
    ensures
        ({
            let c = struct_builder(struct_input(params, orig))->Ok_0;
            &&& forall|i: int| 0 <= i < c.fields.len() ==> self_free((#[trigger] c.fields[i]).ty)
            &&& forall|i: int|
                0 <= i < c.generics.params.len() ==> self_free(
                    (#[trigger] c.generics.params[i]).bounds,
                )
            &&& c.generics.where_clause is Some ==> self_free(c.generics.where_clause->0)
            &&& self_free(c.finish_func.output)
        }),
{
    let ty = applied_type(orig.name, orig.generics);
    let s = struct_input(params, orig);
    let c = struct_builder(s)->Ok_0;
    match orig.fields {
        FieldsShapeV::Named(ms) => {
            let ns = normalize_members(ms, ty);
            lemma_fields_follow_members(ns);
            assert forall|i: int| 0 <= i < c.fields.len() implies self_free(
                (#[trigger] c.fields[i]).ty,
            ) by {
                lemma_subst_self_free(ms[i].ty, ty);
            }
        },
        _ => {},
    }
    assert forall|i: int| 0 <= i < c.generics.params.len() implies self_free(
        (#[trigger] c.generics.params[i]).bounds,
    ) by {
        lemma_subst_self_free(orig.generics[i].bounds, ty);
    }
    if orig.where_clause is Some {
        lemma_subst_self_free(orig.where_clause->0, ty);
    }
}

/// A member whose type does not mention the self type reaches the
/// builder with its type as written.
pub proof fn lemma_plain_types_are_kept(params: StructInputParamsV, orig: StructDeclV, i: int)
    requires
        struct_builder(struct_input(params, orig)) is Ok,
        orig.fields is Named,
        0 <= i < orig.fields->Named_0.len(),
        self_free(orig.fields->Named_0[i].ty),
    ensures
        struct_builder(struct_input(params, orig))->Ok_0.fields[i].ty
            == orig.fields->Named_0[i].ty,
{
    let ty = applied_type(orig.name, orig.generics);
    let ms = orig.fields->Named_0;
    lemma_fields_follow_members(normalize_members(ms, ty));
    lemma_subst_identity(ms[i].ty, ty);
}

/// A field that was left out takes its configured default where one is
/// written, and the absence value where it is optional by its type.
pub proof fn lemma_omitted_field_takes_default(f: FieldV)
    ensures
        f.params.default is Some && f.params.default->0.len() > 0 ==> resolved_expr(f, None)
            == f.params.default->0,
        f.params.default is None && f.optional ==> resolved_expr(f, None) == seq![ident_tok("None"@)],
{
}

/// Whatever the order in which the setters are called, once each field
/// that has a setter was handed its value the finishing method of a
/// struct's builder writes the very literal that one would write by
/// hand with those values, a skipped field taking its default.
pub proof fn lemma_builder_writes_the_direct_literal(
    name: Seq<char>,
    fields: Seq<FieldV>,
    order: Seq<int>,
    vals: Seq<Seq<TokenV>>,
)
    requires
        vals.len() == fields.len(),
        forall|k: int|
            0 <= k < order.len() ==> 0 <= #[trigger] order[k] < fields.len()
                && !fields[order[k]].params.skip,
        forall|i: int|
            0 <= i < fields.len() && !(#[trigger] fields[i]).params.skip ==> called(order, i),
    ensures
        body_tokens(
            FinishBodyV::StructLiteral(StructLiteralBodyV { struct_ident: name }),
            resolved_exprs(fields, after_calls(fields.len(), order, vals)),
        ) == struct_literal(
            name,
            Seq::new(
                fields.len(),
                |i: int|
                    FieldExprV {
                        ident: fields[i].ident,
                        expr: if fields[i].params.skip {
                            resolved_expr(fields[i], None)
                        } else {
                            vals[i]
                        },
                    },
            ),
        ),
{
    lemma_after_calls(fields.len(), order, vals);
    let slots = after_calls(fields.len(), order, vals);
    assert forall|i: int| 0 <= i < fields.len() implies resolved_expr(fields[i], slots[i]) == (
    if fields[i].params.skip {
        resolved_expr(fields[i], None)
    } else {
        vals[i]
    }) by {
        if fields[i].params.skip {
            if called(order, i) {
                let k = choose|k: int| 0 <= k < order.len() && #[trigger] order[k] == i;
                assert(!fields[order[k]].params.skip);
            }
        } else {
            assert(called(order, i));
        }
    }
    assert(resolved_exprs(fields, slots) =~= Seq::new(
        fields.len(),
        |i: int|
            FieldExprV {
                ident: fields[i].ident,
                expr: if fields[i].params.skip {
                    resolved_expr(fields[i], None)
                } else {
                    vals[i]
                },
            },
    ));
}

} // verus!
