//! The library's stated laws, proved once and for all inputs.

use vstd::prelude::*;
use vstd::seq_lib::*;

use crate::binder::spec_added_pred;
use crate::binder::spec_added_preds;
use crate::binder::spec_constraints;
use crate::binder::spec_own_preds;
use crate::emitter::spec_arms;
use crate::emitter::spec_enum_body;
use crate::emitter::spec_generated;
use crate::emitter::spec_named_record_body;
use crate::emitter::spec_positional_record_body;
use crate::emitter::spec_unit_text;
use crate::emitter::spec_units_text;
use crate::model::Annotation;
use crate::model::FieldDecl;
use crate::model::GenericParameter;
use crate::model::NamedField;
use crate::model::TypeDeclaration;
use crate::model::VariantDeclaration;
use crate::planner::spec_classify;
use crate::planner::spec_field_chunk;
use crate::planner::spec_record_named_chunks;
use crate::planner::spec_record_positional_chunks;
use crate::planner::spec_variant_arm;
use crate::planner::VariantKind;
use crate::scanner::spec_contexts;
use crate::text::spec_decimal;

verus! {

proof fn lemma_arms_flatten(variants: Seq<VariantDeclaration>)
    ensures
        spec_arms(variants) == variants.map_values(
            |v: VariantDeclaration| spec_variant_arm(v),
        ).flatten(),
    decreases variants.len(),
{
    let m = variants.map_values(|v: VariantDeclaration| spec_variant_arm(v));
    if variants.len() == 0 {
        assert(m.flatten() =~= Seq::<char>::empty());
    } else {
        lemma_arms_flatten(variants.drop_last());
        let md = variants.drop_last().map_values(|v: VariantDeclaration| spec_variant_arm(v));
        assert(md =~~= m.drop_last());
        m.lemma_flatten_and_flatten_alt_are_equivalent();
        m.drop_last().lemma_flatten_and_flatten_alt_are_equivalent();
        assert(m.last() == spec_variant_arm(variants.last()));
        assert(spec_arms(variants) =~= m.flatten());
    }
}

/// Law: the body generated for an enum holds exactly one match arm per
/// variant, concatenated in declaration order.
pub proof fn lemma_enum_arms_in_declaration_order(variants: Seq<VariantDeclaration>)
    ensures
        spec_enum_body(variants) == "match self { "@ + variants.map_values(
            |v: VariantDeclaration| spec_variant_arm(v),
        ).flatten() + "}"@,
{
    lemma_arms_flatten(variants);
}

proof fn lemma_named_chunks_flatten(fields: Seq<NamedField>)
    ensures
        spec_record_named_chunks(fields) == fields.map_values(
            |f: NamedField| spec_field_chunk("self."@ + f.name@, Option::Some(f.name@)),
        ).flatten(),
    decreases fields.len(),
{
    let m = fields.map_values(
        |f: NamedField| spec_field_chunk("self."@ + f.name@, Option::Some(f.name@)),
    );
    if fields.len() == 0 {
        assert(m.flatten() =~= Seq::<char>::empty());
    } else {
        lemma_named_chunks_flatten(fields.drop_last());
        let md = fields.drop_last().map_values(
            |f: NamedField| spec_field_chunk("self."@ + f.name@, Option::Some(f.name@)),
        );
        assert(md =~~= m.drop_last());
        m.lemma_flatten_and_flatten_alt_are_equivalent();
        m.drop_last().lemma_flatten_and_flatten_alt_are_equivalent();
        assert(m.last() == spec_field_chunk(
            "self."@ + fields.last().name@,
            Option::Some(fields.last().name@),
        ));
        assert(spec_record_named_chunks(fields) =~= m.flatten());
    }
}

/// Law: a record with named fields emits one labeled entry per field, each
/// labeled with its own field name, in field order.
pub proof fn lemma_named_record_labels_in_order(name: Seq<char>, fields: Seq<NamedField>)
    ensures
        spec_named_record_body(name, fields) == "f.debug_struct(\""@ + name + "\")"@
            + fields.map_values(
            |f: NamedField| spec_field_chunk("self."@ + f.name@, Option::Some(f.name@)),
        ).flatten() + ".finish()"@,
{
    lemma_named_chunks_flatten(fields);
}

proof fn lemma_positional_chunks_flatten(n: nat)
    ensures
        spec_record_positional_chunks(n) == Seq::new(
            n,
            |i: int| spec_field_chunk("self."@ + spec_decimal(i as nat), Option::None),
        ).flatten(),
    decreases n,
{
    let m = Seq::new(n, |i: int| spec_field_chunk("self."@ + spec_decimal(i as nat), Option::None));
    if n == 0 {
        assert(m.flatten() =~= Seq::<char>::empty());
    } else {
        lemma_positional_chunks_flatten((n - 1) as nat);
        let md = Seq::new(
            (n - 1) as nat,
            |i: int| spec_field_chunk("self."@ + spec_decimal(i as nat), Option::None),
        );
        assert(md =~~= m.drop_last());
        m.lemma_flatten_and_flatten_alt_are_equivalent();
        m.drop_last().lemma_flatten_and_flatten_alt_are_equivalent();
        assert(m.last() == spec_field_chunk(
            "self."@ + spec_decimal((n - 1) as nat),
            Option::None,
        ));
        assert(spec_record_positional_chunks(n) =~= m.flatten());
    }
}

/// Law: a record with `n` positional fields emits exactly `n` unlabeled
/// entries, in field order.
pub proof fn lemma_positional_record_unlabeled_in_order(name: Seq<char>, n: nat)
    ensures
        spec_positional_record_body(name, n) == "f.debug_tuple(\""@ + name + "\")"@ + Seq::new(
            n,
            |i: int| spec_field_chunk("self."@ + spec_decimal(i as nat), Option::None),
        ).flatten() + ".finish()"@,
{
    lemma_positional_chunks_flatten(n);
}

/// Law: the presence of any unnamed field forces the tuple classification,
/// even when other fields of the same variant carry names.
pub proof fn lemma_any_unnamed_forces_tuple(fields: Seq<FieldDecl>, i: int)
    requires
        0 <= i < fields.len(),
        fields[i].name is None,
    ensures
        spec_classify(fields) == VariantKind::Tuple,
{
}

/// Law: a nonempty variant whose fields all carry names classifies as
/// struct-like.
pub proof fn lemma_all_named_is_struct(fields: Seq<FieldDecl>)
    requires
        fields.len() > 0,
        forall|i: int| 0 <= i < fields.len() ==> fields[i].name is Some,
    ensures
        spec_classify(fields) == VariantKind::Struct,
{
}

proof fn lemma_added_preds_map(params: Seq<GenericParameter>, ctx: Seq<char>)
    ensures
        spec_added_preds(params, ctx) == params.map_values(
            |p: GenericParameter| spec_added_pred(p.name@, ctx),
        ),
    decreases params.len(),
{
    if params.len() == 0 {
        assert(spec_added_preds(params, ctx) =~~= params.map_values(
            |p: GenericParameter| spec_added_pred(p.name@, ctx),
        ));
    } else {
        lemma_added_preds_map(params.drop_last(), ctx);
        assert(spec_added_preds(params, ctx) =~~= params.map_values(
            |p: GenericParameter| spec_added_pred(p.name@, ctx),
        ));
    }
}

/// Law: the constraint set of every emitted implementation is the
/// declaration's own predicates followed by exactly one added capability
/// predicate per generic parameter, parameterized by the active context, in
/// parameter order.
pub proof fn lemma_every_parameter_constrained(params: Seq<GenericParameter>, ctx: Seq<char>)
    ensures
        spec_constraints(params, ctx) == spec_own_preds(params) + params.map_values(
            |p: GenericParameter| spec_added_pred(p.name@, ctx),
        ),
        forall|j: int|
            0 <= j < params.len() ==> spec_constraints(params, ctx)[spec_own_preds(params).len()
                + j] == spec_added_pred(params[j].name@, ctx),
{
    lemma_added_preds_map(params, ctx);
}

proof fn lemma_units_text_flatten(decl: TypeDeclaration, ctxs: Seq<Seq<char>>)
    ensures
        spec_units_text(decl, ctxs) == ctxs.map_values(
            |c: Seq<char>| spec_unit_text(decl, Option::Some(c)),
        ).flatten(),
    decreases ctxs.len(),
{
    let m = ctxs.map_values(|c: Seq<char>| spec_unit_text(decl, Option::Some(c)));
    if ctxs.len() == 0 {
        assert(m.flatten() =~= Seq::<char>::empty());
    } else {
        lemma_units_text_flatten(decl, ctxs.drop_last());
        let md = ctxs.drop_last().map_values(
            |c: Seq<char>| spec_unit_text(decl, Option::Some(c)),
        );
        assert(md =~~= m.drop_last());
        m.lemma_flatten_and_flatten_alt_are_equivalent();
        m.drop_last().lemma_flatten_and_flatten_alt_are_equivalent();
        assert(m.last() == spec_unit_text(decl, Option::Some(ctxs.last())));
        assert(spec_units_text(decl, ctxs) =~= m.flatten());
    }
}

/// Law: a declaration with contexts yields one implementation per declared
/// context, in order; each piece of the output depends only on the
/// declaration and its own context.
pub proof fn lemma_context_fanout(decl: TypeDeclaration, attrs: Seq<Annotation>)
    requires
        spec_contexts(attrs).len() > 0,
    ensures
        spec_generated(decl, attrs) == spec_contexts(attrs).map_values(
            |c: Seq<char>| spec_unit_text(decl, Option::Some(c)),
        ).flatten(),
{
    lemma_units_text_flatten(decl, spec_contexts(attrs));
}

/// Law: a declaration with no declared context yields exactly the single
/// implementation that is generic over the synthesized placeholder.
pub proof fn lemma_no_context_fallback(decl: TypeDeclaration, attrs: Seq<Annotation>)
    requires
        spec_contexts(attrs).len() == 0,
    ensures
        spec_generated(decl, attrs) == spec_unit_text(decl, Option::None),
{
}

/// Law: generation is deterministic — any two outputs produced for the same
/// declaration and the same annotation list are identical.
pub proof fn lemma_generation_deterministic(
    decl: TypeDeclaration,
    attrs: Seq<Annotation>,
    out1: Seq<char>,
    out2: Seq<char>,
)
    requires
        out1 == spec_generated(decl, attrs),
        out2 == spec_generated(decl, attrs),
    ensures
        out1 == out2,
{
}

} // verus!
