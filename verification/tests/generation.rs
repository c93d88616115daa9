use debug_with_context_gen::model::Annotation;
use debug_with_context_gen::model::FieldDecl;
use debug_with_context_gen::model::FieldSet;
use debug_with_context_gen::model::GenError;
use debug_with_context_gen::model::GenericParameter;
use debug_with_context_gen::model::NamedField;
use debug_with_context_gen::model::Shape;
use debug_with_context_gen::model::TypeDeclaration;
use debug_with_context_gen::model::VariantDeclaration;
use debug_with_context_gen::emitter::generate;

fn ctx_attr(ident: &str) -> Annotation {
    Annotation {
        name: "debug_context".to_string(),
        segments: vec![ident.to_string()],
        has_generic_args: false,
    }
}

fn named(name: &str, ty: &str) -> NamedField {
    NamedField { name: name.to_string(), ty: ty.to_string() }
}

fn point_decl() -> TypeDeclaration {
    TypeDeclaration {
        name: "Point".to_string(),
        generics: vec![],
        shape: Shape::Record(FieldSet::Named(vec![named("x", "i32"), named("y", "i32")])),
    }
}

#[test]
fn named_record_one_context() {
    let out = generate(&point_decl(), &vec![ctx_attr("Ctx")]).unwrap();
    assert_eq!(
        out,
        "#[automatically_derived] impl DebugWithContext<Ctx> for Point \
         { fn fmt_with_context(&self, f: &mut ::std::fmt::Formatter, context: &Ctx) \
         -> ::std::fmt::Result { f.debug_struct(\"Point\")\
         .field_with(\"x\", |fmt| { self.x.fmt_with_context(fmt, context) })\
         .field_with(\"y\", |fmt| { self.y.fmt_with_context(fmt, context) })\
         .finish() } }\n"
    );
}

#[test]
fn generation_is_deterministic() {
    let decl = point_decl();
    let attrs = vec![ctx_attr("Ctx")];
    let first = generate(&decl, &attrs).unwrap();
    let second = generate(&decl, &attrs).unwrap();
    assert_eq!(first, second);
}

#[test]
fn positional_record() {
    let decl = TypeDeclaration {
        name: "TestT".to_string(),
        generics: vec![],
        shape: Shape::Record(FieldSet::Positional(vec!["u64".to_string()])),
    };
    let out = generate(&decl, &vec![ctx_attr("Context")]).unwrap();
    assert_eq!(
        out,
        "#[automatically_derived] impl DebugWithContext<Context> for TestT \
         { fn fmt_with_context(&self, f: &mut ::std::fmt::Formatter, context: &Context) \
         -> ::std::fmt::Result { f.debug_tuple(\"TestT\")\
         .field_with(|fmt| { self.0.fmt_with_context(fmt, context) })\
         .finish() } }\n"
    );
}

#[test]
fn positional_record_two_digit_indices() {
    let tys: Vec<String> = (0..11).map(|_| "u8".to_string()).collect();
    let decl = TypeDeclaration {
        name: "Wide".to_string(),
        generics: vec![],
        shape: Shape::Record(FieldSet::Positional(tys)),
    };
    let out = generate(&decl, &vec![ctx_attr("C")]).unwrap();
    assert!(out.contains(".field_with(|fmt| { self.9.fmt_with_context(fmt, context) })"));
    assert!(out.contains(".field_with(|fmt| { self.10.fmt_with_context(fmt, context) })"));
    assert!(!out.contains("self.11"));
}

#[test]
fn empty_record() {
    let decl = TypeDeclaration {
        name: "TestNothing".to_string(),
        generics: vec![],
        shape: Shape::Record(FieldSet::Empty),
    };
    let out = generate(&decl, &vec![ctx_attr("Context")]).unwrap();
    assert_eq!(
        out,
        "#[automatically_derived] impl DebugWithContext<Context> for TestNothing \
         { fn fmt_with_context(&self, f: &mut ::std::fmt::Formatter, context: &Context) \
         -> ::std::fmt::Result { f.debug_struct(\"TestNothing\").finish() } }\n"
    );
}

#[test]
fn unit_variants_without_context() {
    let decl = TypeDeclaration {
        name: "Signal".to_string(),
        generics: vec![],
        shape: Shape::Enum(vec![
            VariantDeclaration { name: "On".to_string(), fields: vec![] },
            VariantDeclaration { name: "Off".to_string(), fields: vec![] },
        ]),
    };
    let out = generate(&decl, &vec![]).unwrap();
    assert_eq!(
        out,
        "#[automatically_derived] impl<DEBUG_WITH_CONTEXT_CONTEXT_STRUCT, > \
         DebugWithContext<DEBUG_WITH_CONTEXT_CONTEXT_STRUCT> for Signal \
         { fn fmt_with_context(&self, f: &mut ::std::fmt::Formatter, \
         context: &DEBUG_WITH_CONTEXT_CONTEXT_STRUCT) -> ::std::fmt::Result \
         { match self { Self::On => write!(f, \"On\"), Self::Off => write!(f, \"Off\"), } } }\n"
    );
}

#[test]
fn enum_one_arm_per_variant_in_order() {
    let decl = TypeDeclaration {
        name: "TestEAll".to_string(),
        generics: vec![],
        shape: Shape::Enum(vec![
            VariantDeclaration {
                name: "VariantA".to_string(),
                fields: vec![FieldDecl { name: None, ty: "i32".to_string() }],
            },
            VariantDeclaration {
                name: "VariantB".to_string(),
                fields: vec![FieldDecl { name: Some("b".to_string()), ty: "i64".to_string() }],
            },
            VariantDeclaration { name: "VariantC".to_string(), fields: vec![] },
        ]),
    };
    let out = generate(&decl, &vec![ctx_attr("Context")]).unwrap();
    let body = "match self { \
        Self::VariantA(arg0, ) => f.debug_tuple(\"VariantA\")\
        .field_with(|fmt| { arg0.fmt_with_context(fmt, context) }).finish(), \
        Self::VariantB { b, } => f.debug_struct(\"VariantB\")\
        .field_with(\"b\", |fmt| { b.fmt_with_context(fmt, context) }).finish(), \
        Self::VariantC => write!(f, \"VariantC\"), }";
    assert_eq!(
        out,
        format!(
            "#[automatically_derived] impl DebugWithContext<Context> for TestEAll \
             {{ fn fmt_with_context(&self, f: &mut ::std::fmt::Formatter, context: &Context) \
             -> ::std::fmt::Result {{ {} }} }}\n",
            body
        )
    );
    let pos_a = out.find("Self::VariantA").unwrap();
    let pos_b = out.find("Self::VariantB").unwrap();
    let pos_c = out.find("Self::VariantC").unwrap();
    assert!(pos_a < pos_b && pos_b < pos_c);
}

#[test]
fn empty_enum_has_no_arms() {
    let decl = TypeDeclaration {
        name: "Never".to_string(),
        generics: vec![],
        shape: Shape::Enum(vec![]),
    };
    let out = generate(&decl, &vec![ctx_attr("C")]).unwrap();
    assert!(out.contains("match self { }"));
}

#[test]
fn two_contexts_fan_out_two_independent_units() {
    let decl = TypeDeclaration {
        name: "Test2ContextNoGeneric".to_string(),
        generics: vec![],
        shape: Shape::Record(FieldSet::Named(vec![named("a", "i32"), named("b", "i64")])),
    };
    let out = generate(&decl, &vec![ctx_attr("Context1"), ctx_attr("Context2")]).unwrap();
    let lines: Vec<&str> = out.lines().collect();
    assert_eq!(lines.len(), 2);
    assert!(lines[0].contains("DebugWithContext<Context1> for Test2ContextNoGeneric"));
    assert!(lines[1].contains("DebugWithContext<Context2> for Test2ContextNoGeneric"));
    assert!(!lines[0].contains("Context2"));
    assert!(!lines[1].contains("Context1"));
    let solo = generate(&decl, &vec![ctx_attr("Context1")]).unwrap();
    assert_eq!(format!("{}\n", lines[0]), solo);
}

#[test]
fn no_context_yields_exactly_one_generic_unit() {
    let decl = TypeDeclaration {
        name: "Test2Context".to_string(),
        generics: vec![],
        shape: Shape::Record(FieldSet::Named(vec![named("a", "i32"), named("b", "i64")])),
    };
    let out = generate(&decl, &vec![]).unwrap();
    assert_eq!(out.lines().count(), 1);
    assert!(out.contains("impl<DEBUG_WITH_CONTEXT_CONTEXT_STRUCT, >"));
    assert!(out.contains("DebugWithContext<DEBUG_WITH_CONTEXT_CONTEXT_STRUCT> for Test2Context"));
}

#[test]
fn generic_parameters_each_get_capability_constraint() {
    let decl = TypeDeclaration {
        name: "TestGenerics".to_string(),
        generics: vec![
            GenericParameter { name: "T".to_string(), bounds: vec![] },
            GenericParameter { name: "A".to_string(), bounds: vec!["Debug".to_string()] },
        ],
        shape: Shape::Record(FieldSet::Named(vec![named("a", "T"), named("b", "Vec<A>")])),
    };
    let out = generate(&decl, &vec![ctx_attr("Context")]).unwrap();
    assert_eq!(
        out,
        "#[automatically_derived] impl<T, A, > DebugWithContext<Context> \
         for TestGenerics<T, A, > \
         where A: Debug, T: DebugWithContext<Context>, A: DebugWithContext<Context>, \
         { fn fmt_with_context(&self, f: &mut ::std::fmt::Formatter, context: &Context) \
         -> ::std::fmt::Result { f.debug_struct(\"TestGenerics\")\
         .field_with(\"a\", |fmt| { self.a.fmt_with_context(fmt, context) })\
         .field_with(\"b\", |fmt| { self.b.fmt_with_context(fmt, context) })\
         .finish() } }\n"
    );
}

#[test]
fn generic_parameters_constrained_by_placeholder_without_context() {
    let decl = TypeDeclaration {
        name: "Holder".to_string(),
        generics: vec![GenericParameter { name: "T".to_string(), bounds: vec![] }],
        shape: Shape::Record(FieldSet::Named(vec![named("inner", "T")])),
    };
    let out = generate(&decl, &vec![]).unwrap();
    assert!(out.contains("impl<DEBUG_WITH_CONTEXT_CONTEXT_STRUCT, T, >"));
    assert!(out.contains("for Holder<T, >"));
    assert!(out.contains("where T: DebugWithContext<DEBUG_WITH_CONTEXT_CONTEXT_STRUCT>, "));
}

#[test]
fn union_shape_is_rejected() {
    let decl = TypeDeclaration {
        name: "Raw".to_string(),
        generics: vec![],
        shape: Shape::Union,
    };
    assert_eq!(generate(&decl, &vec![ctx_attr("C")]), Err(GenError::UnsupportedShape));
    assert_eq!(generate(&decl, &vec![]), Err(GenError::UnsupportedShape));
}

#[test]
fn malformed_payload_is_rejected_before_shape() {
    let decl = TypeDeclaration {
        name: "Raw".to_string(),
        generics: vec![],
        shape: Shape::Union,
    };
    let bad = Annotation {
        name: "debug_context".to_string(),
        segments: vec!["a".to_string(), "b".to_string()],
        has_generic_args: false,
    };
    assert_eq!(generate(&decl, &vec![bad]), Err(GenError::MalformedBindingPayload));
}

struct RenderedPoint {
    x: i32,
    y: i32,
}

// The generated body for `Point` is the call chain
// `f.debug_struct("Point").field_with("x", ..).field_with("y", ..).finish()`;
// this mirrors that chain on the stable formatter surface and checks the
// rendering it produces.
impl std::fmt::Debug for RenderedPoint {
    fn fmt(&self, f: &mut std::fmt::Formatter) -> std::fmt::Result {
        f.debug_struct("Point").field("x", &self.x).field("y", &self.y).finish()
    }
}

#[test]
fn point_call_chain_renders_named_fields() {
    assert_eq!(format!("{:?}", RenderedPoint { x: 3, y: 4 }), "Point { x: 3, y: 4 }");
}

enum RenderedSignal {
    On,
    Off,
}

// The generated arm for a unit variant writes the bare variant name to the
// formatter; this mirrors the emitted match on the stable formatter surface
// and checks the rendering it produces.
impl std::fmt::Debug for RenderedSignal {
    fn fmt(&self, f: &mut std::fmt::Formatter) -> std::fmt::Result {
        match self {
            Self::On => f.write_str("On"),
            Self::Off => f.write_str("Off"),
        }
    }
}

#[test]
fn unit_variant_arm_renders_bare_name() {
    assert_eq!(format!("{:?}", RenderedSignal::On), "On");
    assert_eq!(format!("{:?}", RenderedSignal::Off), "Off");
}
