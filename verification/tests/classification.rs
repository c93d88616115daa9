use debug_with_context_gen::model::Annotation;
use debug_with_context_gen::model::FieldDecl;
use debug_with_context_gen::model::GenError;
use debug_with_context_gen::model::VariantDeclaration;
use debug_with_context_gen::planner::classify_variant;
use debug_with_context_gen::planner::get_unnamed_enum_arg;
use debug_with_context_gen::planner::variant_arm;
use debug_with_context_gen::planner::VariantKind;
use debug_with_context_gen::scanner::scan_contexts;
use debug_with_context_gen::text::decimal_string;

fn unnamed(ty: &str) -> FieldDecl {
    FieldDecl { name: None, ty: ty.to_string() }
}

fn named(name: &str, ty: &str) -> FieldDecl {
    FieldDecl { name: Some(name.to_string()), ty: ty.to_string() }
}

#[test]
fn classify_no_fields_as_empty() {
    let v = VariantDeclaration { name: "On".to_string(), fields: vec![] };
    assert_eq!(classify_variant(&v), VariantKind::Empty);
}

#[test]
fn classify_all_named_as_struct() {
    let v = VariantDeclaration {
        name: "V".to_string(),
        fields: vec![named("a", "i32"), named("b", "i64")],
    };
    assert_eq!(classify_variant(&v), VariantKind::Struct);
}

#[test]
fn classify_all_unnamed_as_tuple() {
    let v = VariantDeclaration {
        name: "V".to_string(),
        fields: vec![unnamed("i32"), unnamed("i64")],
    };
    assert_eq!(classify_variant(&v), VariantKind::Tuple);
}

#[test]
fn mixed_shape_classifies_as_tuple_never_mixed() {
    let v = VariantDeclaration {
        name: "V".to_string(),
        fields: vec![unnamed("i32"), named("b", "i64")],
    };
    assert_eq!(classify_variant(&v), VariantKind::Tuple);
    let arm = variant_arm(&v);
    assert_eq!(
        arm,
        "Self::V(arg0, arg1, ) => f.debug_tuple(\"V\")\
         .field_with(|fmt| { arg0.fmt_with_context(fmt, context) })\
         .field_with(|fmt| { arg1.fmt_with_context(fmt, context) })\
         .finish(), "
    );
    assert!(!arm.contains("\"b\""));
}

#[test]
fn struct_variant_arm_destructures_by_name() {
    let v = VariantDeclaration {
        name: "VariantB".to_string(),
        fields: vec![named("b", "i64")],
    };
    assert_eq!(
        variant_arm(&v),
        "Self::VariantB { b, } => f.debug_struct(\"VariantB\")\
         .field_with(\"b\", |fmt| { b.fmt_with_context(fmt, context) })\
         .finish(), "
    );
}

#[test]
fn empty_variant_arm_writes_bare_name() {
    let v = VariantDeclaration { name: "Off".to_string(), fields: vec![] };
    assert_eq!(variant_arm(&v), "Self::Off => write!(f, \"Off\"), ");
}

#[test]
fn synthesized_bindings_are_zero_based() {
    assert_eq!(get_unnamed_enum_arg(0), "arg0");
    assert_eq!(get_unnamed_enum_arg(1), "arg1");
    assert_eq!(get_unnamed_enum_arg(17), "arg17");
}

#[test]
fn decimal_rendering() {
    assert_eq!(decimal_string(0), "0");
    assert_eq!(decimal_string(7), "7");
    assert_eq!(decimal_string(10), "10");
    assert_eq!(decimal_string(90210), "90210");
}

fn attr(name: &str, segments: &[&str], has_generic_args: bool) -> Annotation {
    Annotation {
        name: name.to_string(),
        segments: segments.iter().map(|s| s.to_string()).collect(),
        has_generic_args,
    }
}

#[test]
fn scan_keeps_declared_order_and_ignores_other_annotations() {
    let attrs = vec![
        attr("derive", &["Clone"], false),
        attr("debug_context", &["Context1"], false),
        attr("doc", &["hidden"], false),
        attr("debug_context", &["Context2"], false),
    ];
    let got = scan_contexts(&attrs).unwrap();
    assert_eq!(got, vec!["Context1".to_string(), "Context2".to_string()]);
}

#[test]
fn scan_of_no_annotations_is_empty() {
    assert_eq!(scan_contexts(&vec![]).unwrap(), Vec::<String>::new());
}

#[test]
fn scan_rejects_path_payload() {
    let attrs = vec![attr("debug_context", &["module", "Context"], false)];
    assert_eq!(scan_contexts(&attrs), Err(GenError::MalformedBindingPayload));
}

#[test]
fn scan_rejects_generic_payload() {
    let attrs = vec![attr("debug_context", &["Context"], true)];
    assert_eq!(scan_contexts(&attrs), Err(GenError::MalformedBindingPayload));
}

#[test]
fn scan_rejects_empty_payload() {
    let attrs = vec![attr("debug_context", &[], false)];
    assert_eq!(scan_contexts(&attrs), Err(GenError::MalformedBindingPayload));
}
