//! Generic constraint binding.
//!
//! Every generic type parameter of the implemented type must itself satisfy
//! the context-aware formatting capability for the active context, or the
//! emitted recursive field calls could not type-check. The binder builds the
//! full constraint set: the parameters' pre-existing constraint predicates,
//! preserved verbatim and in order, followed by one added capability
//! predicate per parameter, in parameter order.

use vstd::prelude::*;
use vstd::string::*;

use crate::model::GenericParameter;

verus! {

/// The views of a list of strings.
pub open spec fn views_of(items: Seq<String>) -> Seq<Seq<char>> {
    items.map_values(|s: String| s@)
}

/// The capability predicate added for one generic parameter:
/// `<param>: DebugWithContext<<context>>`.
pub open spec fn spec_added_pred(param: Seq<char>, ctx: Seq<char>) -> Seq<char> {
    param + ": DebugWithContext<"@ + ctx + ">"@
}

/// The pre-existing predicates of one parameter: `<param>: <bound>`, one per
/// declared bound, in declaration order.
pub open spec fn spec_bound_preds(param: Seq<char>, bounds: Seq<Seq<char>>) -> Seq<Seq<char>>
    decreases bounds.len(),
{
    if bounds.len() == 0 {
        Seq::<Seq<char>>::empty()
    } else {
        spec_bound_preds(param, bounds.drop_last()).push(param + ": "@ + bounds.last())
    }
}

/// All pre-existing predicates of a parameter list, in parameter order.
pub open spec fn spec_own_preds(params: Seq<GenericParameter>) -> Seq<Seq<char>>
    decreases params.len(),
{
    if params.len() == 0 {
        Seq::<Seq<char>>::empty()
    } else {
        spec_own_preds(params.drop_last()) + spec_bound_preds(
            params.last().name@,
            views_of(params.last().bounds@),
        )
    }
}

/// The added capability predicates: one per parameter, in parameter order.
pub open spec fn spec_added_preds(params: Seq<GenericParameter>, ctx: Seq<char>) -> Seq<Seq<char>>
    decreases params.len(),
{
    if params.len() == 0 {
        Seq::<Seq<char>>::empty()
    } else {
        spec_added_preds(params.drop_last(), ctx).push(spec_added_pred(params.last().name@, ctx))
    }
}

/// The full constraint set for one implementation: pre-existing predicates
/// first, then the added capability predicates.
pub open spec fn spec_constraints(params: Seq<GenericParameter>, ctx: Seq<char>) -> Seq<Seq<char>> {
    spec_own_preds(params) + spec_added_preds(params, ctx)
}

/// Builds the constraint set for the active context `ctx`: every pre-existing
/// predicate is preserved verbatim, and every generic parameter is
/// additionally constrained to satisfy `DebugWithContext<ctx>`.
pub fn bind_generics(params: &Vec<GenericParameter>, ctx: &str) -> (r: Vec<String>)
    ensures
        views_of(r@) == spec_constraints(params@, ctx@),
{
    let mut r: Vec<String> = Vec::new();
    let mut i: usize = 0;
    proof {
        assert(views_of(r@) =~~= spec_own_preds(params@.take(0)));
    }
    while i < params.len()
        invariant
            i <= params@.len(),
            views_of(r@) == spec_own_preds(params@.take(i as int)),
        decreases params@.len() - i,
    {
        let p = &params[i];
        let mut j: usize = 0;
        proof {
            assert(views_of(r@) =~~= spec_own_preds(params@.take(i as int)) + spec_bound_preds(
                p.name@,
                views_of(p.bounds@).take(0),
            ));
        }
        while j < p.bounds.len()
            invariant
                j <= p.bounds@.len(),
                views_of(r@) == spec_own_preds(params@.take(i as int)) + spec_bound_preds(
                    p.name@,
                    views_of(p.bounds@).take(j as int),
                ),
                i < params@.len(),
                *p == params@[i as int],
            decreases p.bounds@.len() - j,
        {
            let mut pred = p.name.clone();
            pred.append(": ");
            pred.append(p.bounds[j].as_str());
            let ghost prev = r@;
            r.push(pred);
            proof {
                let bs = views_of(p.bounds@);
                assert(bs.take(j + 1).drop_last() =~~= bs.take(j as int));
                assert(bs.take(j + 1).last() == p.bounds@[j as int]@);
                assert(pred@ == p.name@ + ": "@ + p.bounds@[j as int]@);
                assert(r@ == prev.push(pred));
                assert(views_of(r@) =~~= views_of(prev).push(pred@));
                assert(views_of(r@) =~~= spec_own_preds(params@.take(i as int))
                    + spec_bound_preds(p.name@, bs.take(j + 1)));
            }
            j += 1;
        }
        proof {
            let pre = params@.take(i as int);
            let post = params@.take(i + 1);
            assert(post.drop_last() =~~= pre);
            assert(post.last() == params@[i as int]);
            assert(views_of(p.bounds@).take(p.bounds@.len() as int) =~~= views_of(p.bounds@));
            assert(views_of(r@) =~~= spec_own_preds(post));
        }
        i += 1;
    }
    proof {
        assert(params@.take(params@.len() as int) =~~= params@);
    }
    let mut i: usize = 0;
    proof {
        assert(views_of(r@) =~~= spec_own_preds(params@) + spec_added_preds(
            params@.take(0),
            ctx@,
        ));
    }
    while i < params.len()
        invariant
            i <= params@.len(),
            views_of(r@) == spec_own_preds(params@) + spec_added_preds(
                params@.take(i as int),
                ctx@,
            ),
        decreases params@.len() - i,
    {
        let p = &params[i];
        let mut pred = p.name.clone();
        pred.append(": DebugWithContext<");
        pred.append(ctx);
        pred.append(">");
        let ghost prev = r@;
        r.push(pred);
        proof {
            let pre = params@.take(i as int);
            let post = params@.take(i + 1);
            assert(post.drop_last() =~~= pre);
            assert(post.last() == params@[i as int]);
            assert(pred@ =~= spec_added_pred(params@[i as int].name@, ctx@));
            assert(r@ == prev.push(pred));
            assert(views_of(r@) =~~= views_of(prev).push(pred@));
            assert(views_of(r@) =~~= spec_own_preds(params@) + spec_added_preds(post, ctx@));
        }
        i += 1;
    }
    proof {
        assert(params@.take(params@.len() as int) =~~= params@);
        assert(views_of(r@) =~~= spec_constraints(params@, ctx@));
    }
    r
}

} // verus!
