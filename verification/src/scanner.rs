//! Context annotation scanning.
//!
//! A declaration may carry any number of `debug_context` annotation
//! occurrences; each contributes exactly one context-type identifier, in
//! order. A recognized occurrence whose payload is not a bare identifier
//! (exactly one path segment, no generic arguments) is a fatal input error.
//! An empty result is not an error here: the emitter falls back to a single
//! implementation that is generic over the context.

use vstd::prelude::*;
use vstd::string::*;

use crate::binder::views_of;
use crate::model::Annotation;
use crate::model::GenError;

verus! {

/// Whether an annotation occurrence is a recognized context binding.
pub open spec fn spec_is_context_attr(a: Annotation) -> bool {
    a.name@ == "debug_context"@
}

/// Whether an annotation payload is a bare identifier.
pub open spec fn spec_bare_ident(a: Annotation) -> bool {
    a.segments@.len() == 1 && !a.has_generic_args
}

/// Whether every recognized context annotation carries a bare identifier.
pub open spec fn spec_scan_ok(attrs: Seq<Annotation>) -> bool {
    forall|i: int|
        0 <= i < attrs.len() && spec_is_context_attr(attrs[i]) ==> spec_bare_ident(attrs[i])
}

/// The declared context identifiers, in annotation order.
pub open spec fn spec_contexts(attrs: Seq<Annotation>) -> Seq<Seq<char>>
    decreases attrs.len(),
{
    if attrs.len() == 0 {
        Seq::<Seq<char>>::empty()
    } else if spec_is_context_attr(attrs.last()) {
        spec_contexts(attrs.drop_last()).push(attrs.last().segments@[0]@)
    } else {
        spec_contexts(attrs.drop_last())
    }
}

/// Extracts the declared context identifiers from an annotation list.
/// Returns them in order; fails exactly when some recognized occurrence's
/// payload is not a bare identifier.
pub fn scan_contexts(attrs: &Vec<Annotation>) -> (r: Result<Vec<String>, GenError>)
    ensures
        r is Ok <==> spec_scan_ok(attrs@),
        r matches Ok(cs) ==> views_of(cs@) == spec_contexts(attrs@),
        r is Err ==> r == Result::<Vec<String>, GenError>::Err(GenError::MalformedBindingPayload),
{
    let needle = String::from_str("debug_context");
    proof {
        assert(needle@ == "debug_context"@);
    }
    let mut out: Vec<String> = Vec::new();
    let mut i: usize = 0;
    while i < attrs.len()
        invariant
            i <= attrs@.len(),
            needle@ == "debug_context"@,
            spec_scan_ok(attrs@.take(i as int)),
            views_of(out@) == spec_contexts(attrs@.take(i as int)),
        decreases attrs@.len() - i,
    {
        let a = &attrs[i];
        if a.name == needle {
            if a.segments.len() != 1 || a.has_generic_args {
                proof {
                    assert(!spec_bare_ident(attrs@[i as int]));
                    assert(spec_is_context_attr(attrs@[i as int]));
                }
                return Result::Err(GenError::MalformedBindingPayload);
            }
            out.push(a.segments[0].clone());
        }
        proof {
            let pre = attrs@.take(i as int);
            let post = attrs@.take(i + 1);
            assert(post.drop_last() =~= pre);
            assert(post.last() == attrs@[i as int]);
            assert(views_of(out@) =~= spec_contexts(post));
        }
        i += 1;
    }
    proof {
        assert(attrs@.take(attrs@.len() as int) =~= attrs@);
    }
    Result::Ok(out)
}

} // verus!
