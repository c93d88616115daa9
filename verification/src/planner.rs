//! Field and variant planning.
//!
//! A field plan resolves how one field is reached (`self.<name>` for record
//! fields, a destructured binding for variant fields), which label it carries
//! in named-style output, and the recursive formatting call made on it. A
//! variant plan classifies one enum variant as empty, tuple-like or
//! struct-like and builds its complete match arm.

use vstd::prelude::*;
use vstd::string::*;

use crate::model::FieldDecl;
use crate::model::NamedField;
use crate::model::VariantDeclaration;
use crate::text::decimal_string;
use crate::text::spec_decimal;

verus! {

/// The synthesized binding name for an unnamed variant field: `arg<index>`.
pub open spec fn spec_unnamed_arg(idx: nat) -> Seq<char> {
    "arg"@ + spec_decimal(idx)
}

/// The resolved name of a field: its declared name if present, else the
/// stringified index for record fields, else the synthesized `arg<index>`
/// binding for variant fields.
pub open spec fn spec_resolved_name(name: Option<Seq<char>>, idx: nat, is_record: bool) -> Seq<char> {
    match name {
        Option::Some(n) => n,
        Option::None => if is_record {
            spec_decimal(idx)
        } else {
            spec_unnamed_arg(idx)
        },
    }
}

/// The access expression for a field: `self.<resolved>` for record fields,
/// the bare binding for variant fields.
pub open spec fn spec_access(name: Option<Seq<char>>, idx: nat, is_record: bool) -> Seq<char> {
    if is_record {
        "self."@ + spec_resolved_name(name, idx, is_record)
    } else {
        spec_resolved_name(name, idx, is_record)
    }
}

/// The recursive, context-aware formatting call made on one field.
pub open spec fn spec_format_call(access: Seq<char>) -> Seq<char> {
    access + ".fmt_with_context(fmt, context)"@
}

/// One `.field_with(..)` chunk of a formatting call chain. The label appears
/// only in named-style output; positional output lists the entry unlabeled.
pub open spec fn spec_field_chunk(access: Seq<char>, label: Option<Seq<char>>) -> Seq<char> {
    ".field_with("@ + (match label {
        Option::Some(l) => "\""@ + l + "\", "@,
        Option::None => Seq::<char>::empty(),
    }) + "|fmt| { "@ + spec_format_call(access) + " })"@
}

/// The view of an optional borrowed name.
pub open spec fn opt_name_view(name: Option<&String>) -> Option<Seq<char>> {
    match name {
        Option::Some(n) => Option::Some(n@),
        Option::None => Option::None,
    }
}

/// The view of an optional owned label.
pub open spec fn opt_label_view(label: Option<String>) -> Option<Seq<char>> {
    match label {
        Option::Some(l) => Option::Some(l@),
        Option::None => Option::None,
    }
}

/// The plan for one field: how it is accessed, and the label it carries in
/// named-style output (`None` in positional output).
pub struct FieldDescriptor {
    pub access: String,
    pub label: Option<String>,
}

/// Synthesizes the binding name used for the field at `idx` when an enum
/// variant is destructured positionally.
pub fn get_unnamed_enum_arg(idx: usize) -> (r: String)
    ensures
        r@ == spec_unnamed_arg(idx as nat),
{
    let mut r = String::from_str("arg");
    let digits = decimal_string(idx);
    r.append(digits.as_str());
    r
}

/// Plans one field: resolves its name, builds its access expression, and
/// keeps the label exactly when the enclosing shape is named.
pub fn plan_field(name: Option<&String>, idx: usize, is_record: bool, is_named: bool) -> (d:
    FieldDescriptor)
    ensures
        d.access@ == spec_access(opt_name_view(name), idx as nat, is_record),
        is_named <==> d.label is Some,
        d.label matches Some(l) ==> l@ == spec_resolved_name(
            opt_name_view(name),
            idx as nat,
            is_record,
        ),
{
    let resolved: String = match name {
        Option::Some(n) => n.clone(),
        Option::None => if is_record {
            decimal_string(idx)
        } else {
            get_unnamed_enum_arg(idx)
        },
    };
    let label: Option<String> = if is_named {
        Option::Some(resolved.clone())
    } else {
        Option::None
    };
    let access: String = if is_record {
        let mut a = String::from_str("self.");
        a.append(resolved.as_str());
        a
    } else {
        resolved
    };
    FieldDescriptor { access, label }
}

/// Emits the `.field_with(..)` chunk for one planned field.
pub fn field_chunk(d: &FieldDescriptor) -> (r: String)
    ensures
        r@ == spec_field_chunk(d.access@, opt_label_view(d.label)),
{
    let mut r = String::from_str(".field_with(");
    match &d.label {
        Option::Some(l) => {
            r.append("\"");
            r.append(l.as_str());
            r.append("\", ");
        },
        Option::None => {},
    }
    r.append("|fmt| { ");
    r.append(d.access.as_str());
    r.append(".fmt_with_context(fmt, context)");
    r.append(" })");
    proof {
        assert(r@ =~= spec_field_chunk(d.access@, opt_label_view(d.label)));
    }
    r
}

/// The classification of one enum variant.
#[derive(Clone, Copy, Debug, PartialEq, Eq, Structural)]
pub enum VariantKind {
    /// No fields: the arm writes the bare variant name.
    Empty,
    /// At least one field lacks a name: the arm destructures positionally.
    Tuple,
    /// At least one field, all named: the arm destructures by name.
    Struct,
}

/// Classifies a variant's field list. The presence of any unnamed field
/// forces the tuple classification; positional and named fields are never
/// mixed in one emitted pattern.
pub open spec fn spec_classify(fields: Seq<FieldDecl>) -> VariantKind {
    if fields.len() == 0 {
        VariantKind::Empty
    } else if exists|i: int| 0 <= i < fields.len() && fields[i].name is None {
        VariantKind::Tuple
    } else {
        VariantKind::Struct
    }
}

/// Classifies one enum variant as empty, tuple-like or struct-like.
pub fn classify_variant(v: &VariantDeclaration) -> (k: VariantKind)
    ensures
        k == spec_classify(v.fields@),
{
    let mut any_unnamed = false;
    let mut i: usize = 0;
    while i < v.fields.len()
        invariant
            i <= v.fields@.len(),
            any_unnamed <==> exists|j: int| 0 <= j < i && v.fields@[j].name is None,
        decreases v.fields@.len() - i,
    {
        if v.fields[i].name.is_none() {
            any_unnamed = true;
        }
        i += 1;
    }
    if v.fields.len() == 0 {
        VariantKind::Empty
    } else if any_unnamed {
        VariantKind::Tuple
    } else {
        VariantKind::Struct
    }
}

/// The declared name of a variant field, empty when absent. Used only where
/// classification guarantees that the name is present.
pub open spec fn spec_field_name(f: FieldDecl) -> Seq<char> {
    match f.name {
        Option::Some(n) => n@,
        Option::None => Seq::<char>::empty(),
    }
}

/// The positional destructuring pattern body for `n` fields:
/// `arg0, arg1, ...` with a trailing separator.
pub open spec fn spec_tuple_pattern(n: nat) -> Seq<char>
    decreases n,
{
    if n == 0 {
        Seq::<char>::empty()
    } else {
        spec_tuple_pattern((n - 1) as nat) + spec_unnamed_arg((n - 1) as nat) + ", "@
    }
}

/// The named destructuring pattern body: `a, b, ...` with a trailing
/// separator.
pub open spec fn spec_struct_pattern(fields: Seq<FieldDecl>) -> Seq<char>
    decreases fields.len(),
{
    if fields.len() == 0 {
        Seq::<char>::empty()
    } else {
        spec_struct_pattern(fields.drop_last()) + spec_field_name(fields.last()) + ", "@
    }
}

/// The chunk chain for a tuple-classified variant: one unlabeled chunk per
/// field, accessed through its synthesized binding, in field order.
pub open spec fn spec_tuple_chunks(n: nat) -> Seq<char>
    decreases n,
{
    if n == 0 {
        Seq::<char>::empty()
    } else {
        spec_tuple_chunks((n - 1) as nat) + spec_field_chunk(
            spec_unnamed_arg((n - 1) as nat),
            Option::None,
        )
    }
}

/// The chunk chain for a struct-classified variant: one labeled chunk per
/// field, accessed through its named binding, in field order.
pub open spec fn spec_struct_chunks(fields: Seq<FieldDecl>) -> Seq<char>
    decreases fields.len(),
{
    if fields.len() == 0 {
        Seq::<char>::empty()
    } else {
        spec_struct_chunks(fields.drop_last()) + spec_field_chunk(
            spec_field_name(fields.last()),
            Option::Some(spec_field_name(fields.last())),
        )
    }
}

/// The complete match arm for one variant, by its classification.
pub open spec fn spec_variant_arm(v: VariantDeclaration) -> Seq<char> {
    match spec_classify(v.fields@) {
        VariantKind::Empty => "Self::"@ + v.name@ + " => write!(f, \""@ + v.name@ + "\"), "@,
        VariantKind::Tuple => "Self::"@ + v.name@ + "("@ + spec_tuple_pattern(v.fields@.len())
            + ") => f.debug_tuple(\""@ + v.name@ + "\")"@ + spec_tuple_chunks(v.fields@.len())
            + ".finish(), "@,
        VariantKind::Struct => "Self::"@ + v.name@ + " { "@ + spec_struct_pattern(v.fields@)
            + "} => f.debug_struct(\""@ + v.name@ + "\")"@ + spec_struct_chunks(v.fields@)
            + ".finish(), "@,
    }
}

/// Builds the match arm for one enum variant.
pub fn variant_arm(v: &VariantDeclaration) -> (r: String)
    ensures
        r@ == spec_variant_arm(*v),
{
    let kind = classify_variant(v);
    match kind {
        VariantKind::Empty => {
            let mut r = String::from_str("Self::");
            r.append(v.name.as_str());
            r.append(" => write!(f, \"");
            r.append(v.name.as_str());
            r.append("\"), ");
            proof {
                assert(r@ =~= spec_variant_arm(*v));
            }
            r
        },
        VariantKind::Tuple => {
            let mut pattern = String::new();
            let mut chunks = String::new();
            let mut i: usize = 0;
            while i < v.fields.len()
                invariant
                    i <= v.fields@.len(),
                    pattern@ == spec_tuple_pattern(i as nat),
                    chunks@ == spec_tuple_chunks(i as nat),
                decreases v.fields@.len() - i,
            {
                let d = plan_field(Option::None, i, false, false);
                pattern.append(d.access.as_str());
                pattern.append(", ");
                let c = field_chunk(&d);
                chunks.append(c.as_str());
                proof {
                    assert(pattern@ =~= spec_tuple_pattern((i + 1) as nat));
                    assert(chunks@ =~= spec_tuple_chunks((i + 1) as nat));
                }
                i += 1;
            }
            let mut r = String::from_str("Self::");
            r.append(v.name.as_str());
            r.append("(");
            r.append(pattern.as_str());
            r.append(") => f.debug_tuple(\"");
            r.append(v.name.as_str());
            r.append("\")");
            r.append(chunks.as_str());
            r.append(".finish(), ");
            proof {
                assert(r@ =~= spec_variant_arm(*v));
            }
            r
        },
        VariantKind::Struct => {
            proof {
                assert(forall|j: int|
                    0 <= j < v.fields@.len() ==> v.fields@[j].name is Some);
            }
            let mut pattern = String::new();
            let mut chunks = String::new();
            let mut i: usize = 0;
            while i < v.fields.len()
                invariant
                    i <= v.fields@.len(),
                    forall|j: int| 0 <= j < v.fields@.len() ==> v.fields@[j].name is Some,
                    pattern@ == spec_struct_pattern(v.fields@.take(i as int)),
                    chunks@ == spec_struct_chunks(v.fields@.take(i as int)),
                decreases v.fields@.len() - i,
            {
                let fld = &v.fields[i];
                let fname: &String = fld.name.as_ref().unwrap();
                let d = plan_field(Option::Some(fname), i, false, true);
                pattern.append(fname.as_str());
                pattern.append(", ");
                let c = field_chunk(&d);
                chunks.append(c.as_str());
                proof {
                    let pre = v.fields@.take(i as int);
                    let post = v.fields@.take(i + 1);
                    assert(post.drop_last() =~= pre);
                    assert(post.last() == v.fields@[i as int]);
                    assert(pattern@ =~= spec_struct_pattern(post));
                    assert(chunks@ =~= spec_struct_chunks(post));
                }
                i += 1;
            }
            proof {
                assert(v.fields@.take(v.fields@.len() as int) =~= v.fields@);
            }
            let mut r = String::from_str("Self::");
            r.append(v.name.as_str());
            r.append(" { ");
            r.append(pattern.as_str());
            r.append("} => f.debug_struct(\"");
            r.append(v.name.as_str());
            r.append("\")");
            r.append(chunks.as_str());
            r.append(".finish(), ");
            proof {
                assert(r@ =~= spec_variant_arm(*v));
            }
            r
        },
    }
}

/// The chunk chain for a record with named fields: one labeled chunk per
/// field, accessed through `self.<name>`, in field order.
pub open spec fn spec_record_named_chunks(fields: Seq<NamedField>) -> Seq<char>
    decreases fields.len(),
{
    if fields.len() == 0 {
        Seq::<char>::empty()
    } else {
        spec_record_named_chunks(fields.drop_last()) + spec_field_chunk(
            "self."@ + fields.last().name@,
            Option::Some(fields.last().name@),
        )
    }
}

/// The chunk chain for a record with positional fields: one unlabeled chunk
/// per field, accessed through `self.<index>`, in field order.
pub open spec fn spec_record_positional_chunks(n: nat) -> Seq<char>
    decreases n,
{
    if n == 0 {
        Seq::<char>::empty()
    } else {
        spec_record_positional_chunks((n - 1) as nat) + spec_field_chunk(
            "self."@ + spec_decimal((n - 1) as nat),
            Option::None,
        )
    }
}

} // verus!
