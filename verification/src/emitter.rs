//! Implementation emission.
//!
//! For a declaration with contexts `C1..Cn` the emitter produces one
//! implementation per context; for a declaration with no context it produces
//! exactly one implementation that is generic over a synthesized placeholder
//! parameter, so that it applies to every context type uniformly. That
//! fallback is this library's fixed policy for the missing-context case.
//! Union-like declarations are rejected unconditionally.

use vstd::prelude::*;
use vstd::string::*;

use crate::binder::bind_generics;
use crate::binder::spec_constraints;
use crate::binder::views_of;
use crate::model::Annotation;
use crate::model::ContextTarget;
use crate::model::EmissionUnit;
use crate::model::FieldSet;
use crate::model::GenError;
use crate::model::GenericParameter;
use crate::model::NamedField;
use crate::model::Shape;
use crate::model::TypeDeclaration;
use crate::model::VariantDeclaration;
use crate::planner::field_chunk;
use crate::planner::opt_name_view;
use crate::planner::plan_field;
use crate::planner::spec_record_named_chunks;
use crate::planner::spec_record_positional_chunks;
use crate::planner::spec_variant_arm;
use crate::planner::variant_arm;
use crate::scanner::scan_contexts;
use crate::scanner::spec_contexts;
use crate::scanner::spec_scan_ok;

verus! {

/// The synthesized generic parameter standing for "any context".
pub open spec fn spec_placeholder() -> Seq<char> {
    "DEBUG_WITH_CONTEXT_CONTEXT_STRUCT"@
}

/// The name of the active context: the declared one, or the placeholder.
pub open spec fn spec_ctx_name(ctx: Option<Seq<char>>) -> Seq<char> {
    match ctx {
        Option::Some(c) => c,
        Option::None => spec_placeholder(),
    }
}

/// The body of a record implementation with named fields.
pub open spec fn spec_named_record_body(name: Seq<char>, fields: Seq<NamedField>) -> Seq<char> {
    "f.debug_struct(\""@ + name + "\")"@ + spec_record_named_chunks(fields) + ".finish()"@
}

/// The body of a record implementation with `n` positional fields.
pub open spec fn spec_positional_record_body(name: Seq<char>, n: nat) -> Seq<char> {
    "f.debug_tuple(\""@ + name + "\")"@ + spec_record_positional_chunks(n) + ".finish()"@
}

/// The body of a record implementation with no fields.
pub open spec fn spec_empty_record_body(name: Seq<char>) -> Seq<char> {
    "f.debug_struct(\""@ + name + "\").finish()"@
}

/// The concatenated match arms of an enum body, in declaration order.
pub open spec fn spec_arms(variants: Seq<VariantDeclaration>) -> Seq<char>
    decreases variants.len(),
{
    if variants.len() == 0 {
        Seq::<char>::empty()
    } else {
        spec_arms(variants.drop_last()) + spec_variant_arm(variants.last())
    }
}

/// The body of an enum implementation. An enum with no variants yields a
/// match with no arms, which is legal and emitted unchanged.
pub open spec fn spec_enum_body(variants: Seq<VariantDeclaration>) -> Seq<char> {
    "match self { "@ + spec_arms(variants) + "}"@
}

/// The body of a record implementation, by field-set shape.
pub open spec fn spec_record_body(name: Seq<char>, fs: FieldSet) -> Seq<char> {
    match fs {
        FieldSet::Named(fields) => spec_named_record_body(name, fields@),
        FieldSet::Positional(tys) => spec_positional_record_body(name, tys@.len()),
        FieldSet::Empty => spec_empty_record_body(name),
    }
}

/// The formatting body of one implementation of a supported declaration.
pub open spec fn spec_body(decl: TypeDeclaration) -> Seq<char> {
    match decl.shape {
        Shape::Record(fs) => spec_record_body(decl.name@, fs),
        Shape::Enum(vs) => spec_enum_body(vs@),
        Shape::Union => Seq::<char>::empty(),
    }
}

/// Builds the body of a record implementation.
pub fn record_body(name: &String, fs: &FieldSet) -> (r: String)
    ensures
        r@ == spec_record_body(name@, *fs),
{
    match fs {
        FieldSet::Named(fields) => {
            let mut chunks = String::new();
            let mut i: usize = 0;
            while i < fields.len()
                invariant
                    i <= fields@.len(),
                    chunks@ == spec_record_named_chunks(fields@.take(i as int)),
                decreases fields@.len() - i,
            {
                let d = plan_field(Option::Some(&fields[i].name), i, true, true);
                let c = field_chunk(&d);
                chunks.append(c.as_str());
                proof {
                    let post = fields@.take(i + 1);
                    assert(post.drop_last() =~= fields@.take(i as int));
                    assert(post.last() == fields@[i as int]);
                    assert(chunks@ =~= spec_record_named_chunks(post));
                }
                i += 1;
            }
            proof {
                assert(fields@.take(fields@.len() as int) =~= fields@);
            }
            let mut r = String::from_str("f.debug_struct(\"");
            r.append(name.as_str());
            r.append("\")");
            r.append(chunks.as_str());
            r.append(".finish()");
            proof {
                assert(r@ =~= spec_record_body(name@, *fs));
            }
            r
        },
        FieldSet::Positional(tys) => {
            let mut chunks = String::new();
            let mut i: usize = 0;
            while i < tys.len()
                invariant
                    i <= tys@.len(),
                    chunks@ == spec_record_positional_chunks(i as nat),
                decreases tys@.len() - i,
            {
                let d = plan_field(Option::None, i, true, false);
                let c = field_chunk(&d);
                chunks.append(c.as_str());
                proof {
                    assert(chunks@ =~= spec_record_positional_chunks((i + 1) as nat));
                }
                i += 1;
            }
            let mut r = String::from_str("f.debug_tuple(\"");
            r.append(name.as_str());
            r.append("\")");
            r.append(chunks.as_str());
            r.append(".finish()");
            proof {
                assert(r@ =~= spec_record_body(name@, *fs));
            }
            r
        },
        FieldSet::Empty => {
            let mut r = String::from_str("f.debug_struct(\"");
            r.append(name.as_str());
            r.append("\").finish()");
            proof {
                assert(r@ =~= spec_record_body(name@, *fs));
            }
            r
        },
    }
}

/// Builds the body of an enum implementation: one arm per variant, in
/// declaration order.
pub fn enum_body(variants: &Vec<VariantDeclaration>) -> (r: String)
    ensures
        r@ == spec_enum_body(variants@),
{
    let mut arms = String::new();
    let mut i: usize = 0;
    while i < variants.len()
        invariant
            i <= variants@.len(),
            arms@ == spec_arms(variants@.take(i as int)),
        decreases variants@.len() - i,
    {
        let a = variant_arm(&variants[i]);
        arms.append(a.as_str());
        proof {
            let post = variants@.take(i + 1);
            assert(post.drop_last() =~= variants@.take(i as int));
            assert(post.last() == variants@[i as int]);
            assert(arms@ =~= spec_arms(post));
        }
        i += 1;
    }
    proof {
        assert(variants@.take(variants@.len() as int) =~= variants@);
    }
    let mut r = String::from_str("match self { ");
    r.append(arms.as_str());
    r.append("}");
    proof {
        assert(r@ =~= spec_enum_body(variants@));
    }
    r
}

/// Builds the formatting body of one implementation.
pub fn formatting_body(decl: &TypeDeclaration) -> (r: String)
    requires
        !(decl.shape is Union),
    ensures
        r@ == spec_body(*decl),
{
    match &decl.shape {
        Shape::Record(fs) => record_body(&decl.name, fs),
        Shape::Enum(vs) => enum_body(vs),
        Shape::Union => vstd::pervasive::unreached(),
    }
}

/// The names of a declaration's generic parameters, in order.
pub open spec fn spec_param_names(params: Seq<GenericParameter>) -> Seq<Seq<char>> {
    params.map_values(|p: GenericParameter| p.name@)
}

/// Whether a unit's target is the given context (or, for `None`, the
/// synthesized placeholder).
pub open spec fn spec_target_matches(t: ContextTarget, ctx: Option<Seq<char>>) -> bool {
    match ctx {
        Option::Some(c) => t matches ContextTarget::Declared(s) && s@ == c,
        Option::None => t is Synthesized,
    }
}

/// What one emission unit must hold for declaration `decl` and active
/// context `ctx`: the declaration's identity and parameter names, the
/// targeted context, the bound constraint set, and the formatting body.
pub open spec fn unit_matches(u: EmissionUnit, decl: TypeDeclaration, ctx: Option<Seq<char>>) -> bool {
    &&& u.type_ident@ == decl.name@
    &&& views_of(u.generic_params@) == spec_param_names(decl.generics@)
    &&& spec_target_matches(u.target, ctx)
    &&& views_of(u.constraints@) == spec_constraints(decl.generics@, spec_ctx_name(ctx))
    &&& u.body@ == spec_body(decl)
}

/// Builds the emission unit for one (declaration, context) pair.
pub fn build_unit(decl: &TypeDeclaration, ctx: Option<&String>) -> (u: EmissionUnit)
    requires
        !(decl.shape is Union),
    ensures
        unit_matches(u, *decl, opt_name_view(ctx)),
{
    let ctx_name: String = match ctx {
        Option::Some(c) => (*c).clone(),
        Option::None => String::from_str("DEBUG_WITH_CONTEXT_CONTEXT_STRUCT"),
    };
    let target: ContextTarget = match ctx {
        Option::Some(c) => ContextTarget::Declared((*c).clone()),
        Option::None => ContextTarget::Synthesized,
    };
    let constraints = bind_generics(&decl.generics, ctx_name.as_str());
    let mut generic_params: Vec<String> = Vec::new();
    let mut i: usize = 0;
    proof {
        assert(views_of(generic_params@) =~~= spec_param_names(decl.generics@.take(0)));
    }
    while i < decl.generics.len()
        invariant
            i <= decl.generics@.len(),
            views_of(generic_params@) == spec_param_names(decl.generics@.take(i as int)),
        decreases decl.generics@.len() - i,
    {
        let ghost prev = generic_params@;
        generic_params.push(decl.generics[i].name.clone());
        proof {
            assert(views_of(generic_params@) =~~= views_of(prev).push(decl.generics@[i as int].name@));
            assert(views_of(generic_params@) =~~= spec_param_names(decl.generics@.take(i + 1)));
        }
        i += 1;
    }
    proof {
        assert(decl.generics@.take(decl.generics@.len() as int) =~= decl.generics@);
    }
    let body = formatting_body(decl);
    EmissionUnit { type_ident: decl.name.clone(), generic_params, target, constraints, body }
}

/// Produces the emission units for a declaration: one per declared context,
/// in order, or a single placeholder-generic unit when no context is
/// declared. Fails exactly on union-like declarations.
pub fn emit_implementations(decl: &TypeDeclaration, contexts: &Vec<String>) -> (r: Result<
    Vec<EmissionUnit>,
    GenError,
>)
    ensures
        match r {
            Result::Ok(units) => {
                &&& !(decl.shape is Union)
                &&& units@.len() == if contexts@.len() == 0 {
                    1nat
                } else {
                    contexts@.len()
                }
                &&& contexts@.len() == 0 ==> unit_matches(units@[0], *decl, Option::None)
                &&& forall|i: int|
                    0 <= i < contexts@.len() ==> unit_matches(
                        units@[i],
                        *decl,
                        Option::Some(contexts@[i]@),
                    )
            },
            Result::Err(e) => e == GenError::UnsupportedShape && decl.shape is Union,
        },
{
    if matches!(&decl.shape, Shape::Union) {
        return Result::Err(GenError::UnsupportedShape);
    }
    let mut units: Vec<EmissionUnit> = Vec::new();
    if contexts.len() == 0 {
        units.push(build_unit(decl, Option::None));
        return Result::Ok(units);
    }
    let mut i: usize = 0;
    while i < contexts.len()
        invariant
            i <= contexts@.len(),
            !(decl.shape is Union),
            units@.len() == i,
            forall|k: int|
                0 <= k < i ==> unit_matches(units@[k], *decl, Option::Some(contexts@[k]@)),
        decreases contexts@.len() - i,
    {
        units.push(build_unit(decl, Option::Some(&contexts[i])));
        i += 1;
    }
    Result::Ok(units)
}

/// A comma-terminated list: each item followed by `", "`.
pub open spec fn spec_list_text(items: Seq<Seq<char>>) -> Seq<char>
    decreases items.len(),
{
    if items.len() == 0 {
        Seq::<char>::empty()
    } else {
        spec_list_text(items.drop_last()) + items.last() + ", "@
    }
}

/// The implementation's own generic parameter list. A declared context adds
/// nothing; the synthesized placeholder leads the list.
pub open spec fn spec_impl_generics(params: Seq<Seq<char>>, ctx: Option<Seq<char>>) -> Seq<char> {
    match ctx {
        Option::Some(_) => if params.len() == 0 {
            Seq::<char>::empty()
        } else {
            "<"@ + spec_list_text(params) + ">"@
        },
        Option::None => "<"@ + spec_placeholder() + ", "@ + spec_list_text(params) + ">"@,
    }
}

/// The generic arguments after the implemented type's name.
pub open spec fn spec_type_args(params: Seq<Seq<char>>) -> Seq<char> {
    if params.len() == 0 {
        Seq::<char>::empty()
    } else {
        "<"@ + spec_list_text(params) + ">"@
    }
}

/// The where clause, or a single space when there is no predicate.
pub open spec fn spec_where_text(preds: Seq<Seq<char>>) -> Seq<char> {
    if preds.len() == 0 {
        " "@
    } else {
        " where "@ + spec_list_text(preds)
    }
}

/// The complete text of one implementation.
pub open spec fn spec_impl_text(
    ident: Seq<char>,
    params: Seq<Seq<char>>,
    ctx: Option<Seq<char>>,
    preds: Seq<Seq<char>>,
    body: Seq<char>,
) -> Seq<char> {
    "#[automatically_derived] impl"@ + spec_impl_generics(params, ctx) + " DebugWithContext<"@
        + spec_ctx_name(ctx) + "> for "@ + ident + spec_type_args(params) + spec_where_text(preds)
        + "{ fn fmt_with_context(&self, f: &mut ::std::fmt::Formatter, context: &"@ + spec_ctx_name(
        ctx,
    ) + ") -> ::std::fmt::Result { "@ + body + " } }"@
}

/// The context a unit's target stands for.
pub open spec fn spec_target_view(t: ContextTarget) -> Option<Seq<char>> {
    match t {
        ContextTarget::Declared(s) => Option::Some(s@),
        ContextTarget::Synthesized => Option::None,
    }
}

/// The rendered text of one emission unit.
pub open spec fn spec_render_unit(u: EmissionUnit) -> Seq<char> {
    spec_impl_text(
        u.type_ident@,
        views_of(u.generic_params@),
        spec_target_view(u.target),
        views_of(u.constraints@),
        u.body@,
    )
}

fn list_text(items: &Vec<String>) -> (r: String)
    ensures
        r@ == spec_list_text(views_of(items@)),
{
    let mut r = String::new();
    let mut i: usize = 0;
    proof {
        assert(views_of(items@).take(0) =~~= Seq::<Seq<char>>::empty());
    }
    while i < items.len()
        invariant
            i <= items@.len(),
            r@ == spec_list_text(views_of(items@).take(i as int)),
        decreases items@.len() - i,
    {
        r.append(items[i].as_str());
        r.append(", ");
        proof {
            let vs = views_of(items@);
            assert(vs.take(i + 1).drop_last() =~~= vs.take(i as int));
            assert(vs.take(i + 1).last() == items@[i as int]@);
            assert(r@ =~= spec_list_text(vs.take(i + 1)));
        }
        i += 1;
    }
    proof {
        assert(views_of(items@).take(items@.len() as int) =~~= views_of(items@));
    }
    r
}

/// Renders one emission unit as source text.
pub fn render_unit(u: &EmissionUnit) -> (r: String)
    ensures
        r@ == spec_render_unit(*u),
{
    let params = list_text(&u.generic_params);
    let preds = list_text(&u.constraints);
    let ctx_name: &str = match &u.target {
        ContextTarget::Declared(s) => s.as_str(),
        ContextTarget::Synthesized => "DEBUG_WITH_CONTEXT_CONTEXT_STRUCT",
    };
    let mut r = String::from_str("#[automatically_derived] impl");
    match &u.target {
        ContextTarget::Declared(_) => {
            if u.generic_params.len() > 0 {
                r.append("<");
                r.append(params.as_str());
                r.append(">");
            }
        },
        ContextTarget::Synthesized => {
            r.append("<");
            r.append(ctx_name);
            r.append(", ");
            r.append(params.as_str());
            r.append(">");
        },
    }
    r.append(" DebugWithContext<");
    r.append(ctx_name);
    r.append("> for ");
    r.append(u.type_ident.as_str());
    if u.generic_params.len() > 0 {
        r.append("<");
        r.append(params.as_str());
        r.append(">");
    }
    if u.constraints.len() == 0 {
        r.append(" ");
    } else {
        r.append(" where ");
        r.append(preds.as_str());
    }
    r.append("{ fn fmt_with_context(&self, f: &mut ::std::fmt::Formatter, context: &");
    r.append(ctx_name);
    r.append(") -> ::std::fmt::Result { ");
    r.append(u.body.as_str());
    r.append(" } }");
    proof {
        assert(views_of(u.generic_params@).len() == u.generic_params@.len());
        assert(views_of(u.constraints@).len() == u.constraints@.len());
        assert(r@ =~= spec_render_unit(*u));
    }
    r
}

/// The rendered text of the unit for `decl` and context `ctx`, with its
/// trailing line break.
pub open spec fn spec_unit_text(decl: TypeDeclaration, ctx: Option<Seq<char>>) -> Seq<char> {
    spec_impl_text(
        decl.name@,
        spec_param_names(decl.generics@),
        ctx,
        spec_constraints(decl.generics@, spec_ctx_name(ctx)),
        spec_body(decl),
    ) + "\n"@
}

/// The concatenated texts for the declared contexts, in order.
pub open spec fn spec_units_text(decl: TypeDeclaration, ctxs: Seq<Seq<char>>) -> Seq<char>
    decreases ctxs.len(),
{
    if ctxs.len() == 0 {
        Seq::<char>::empty()
    } else {
        spec_units_text(decl, ctxs.drop_last()) + spec_unit_text(decl, Option::Some(ctxs.last()))
    }
}

/// The full generated output for a declaration and its annotations.
pub open spec fn spec_generated(decl: TypeDeclaration, attrs: Seq<Annotation>) -> Seq<char> {
    if spec_contexts(attrs).len() == 0 {
        spec_unit_text(decl, Option::None)
    } else {
        spec_units_text(decl, spec_contexts(attrs))
    }
}

/// Generates the complete source text for one annotated declaration: scans
/// the annotations, emits one unit per declared context (or the single
/// placeholder-generic fallback unit), renders each, and concatenates them
/// in order, one line each. Fails with `MalformedBindingPayload` exactly
/// when a recognized context annotation's payload is not a bare identifier,
/// and with `UnsupportedShape` exactly when the (well-annotated) declaration
/// is union-like.
pub fn generate(decl: &TypeDeclaration, attrs: &Vec<Annotation>) -> (r: Result<String, GenError>)
    ensures
        match r {
            Result::Ok(s) => {
                &&& spec_scan_ok(attrs@)
                &&& !(decl.shape is Union)
                &&& s@ == spec_generated(*decl, attrs@)
            },
            Result::Err(e) => match e {
                GenError::MalformedBindingPayload => !spec_scan_ok(attrs@),
                GenError::UnsupportedShape => spec_scan_ok(attrs@) && decl.shape is Union,
            },
        },
{
    let contexts = match scan_contexts(attrs) {
        Result::Ok(cs) => cs,
        Result::Err(e) => {
            return Result::Err(e);
        },
    };
    let units = match emit_implementations(decl, &contexts) {
        Result::Ok(us) => us,
        Result::Err(e) => {
            return Result::Err(e);
        },
    };
    if contexts.len() == 0 {
        let mut out = render_unit(&units[0]);
        out.append("\n");
        proof {
            assert(out@ =~= spec_unit_text(*decl, Option::None));
            assert(out@ == spec_generated(*decl, attrs@));
        }
        Result::Ok(out)
    } else {
        let ghost cviews = views_of(contexts@);
        proof {
            assert(cviews == spec_contexts(attrs@));
        }
        let mut out = String::new();
        let mut i: usize = 0;
        while i < contexts.len()
            invariant
                i <= contexts@.len(),
                contexts@.len() > 0,
                units@.len() == contexts@.len(),
                cviews == views_of(contexts@),
                !(decl.shape is Union),
                forall|k: int|
                    0 <= k < contexts@.len() ==> unit_matches(
                        units@[k],
                        *decl,
                        Option::Some(contexts@[k]@),
                    ),
                out@ == spec_units_text(*decl, cviews.take(i as int)),
            decreases contexts@.len() - i,
        {
            let piece = render_unit(&units[i]);
            out.append(piece.as_str());
            out.append("\n");
            proof {
                assert(cviews.take(i + 1).drop_last() =~~= cviews.take(i as int));
                assert(cviews.take(i + 1).last() == contexts@[i as int]@);
                assert(piece@ == spec_impl_text(
                    decl.name@,
                    spec_param_names(decl.generics@),
                    Option::Some(contexts@[i as int]@),
                    spec_constraints(decl.generics@, contexts@[i as int]@),
                    spec_body(*decl),
                ));
                assert(out@ =~= spec_units_text(*decl, cviews.take(i + 1)));
            }
            i += 1;
        }
        proof {
            assert(cviews.take(contexts@.len() as int) =~~= cviews);
            assert(out@ == spec_generated(*decl, attrs@));
        }
        Result::Ok(out)
    }
}

} // verus!
