//! What holds of pipelines however they are put together.
use vstd::prelude::*;
use crate::{stands_for, Piped};

verus! {

/// `x` can go through `f`, `g` and `h` in turn: each of them may be called on
/// whatever the one before it returns.
pub open spec fn runs_through<A, B, C, D, F, G, H>(f: F, g: G, h: H, x: A) -> bool
    where
        F: FnOnce(A) -> B,
        G: FnOnce(B) -> C,
        H: FnOnce(C) -> D,
{
    &&& call_requires(f, (x,))
    &&& forall|b: B| #[trigger] call_ensures(f, (x,), b) ==> call_requires(g, (b,))
    &&& forall|b: B, c: C|
        call_ensures(f, (x,), b) && #[trigger] call_ensures(g, (b,), c) ==> call_requires(h, (c,))
}

/// `d` is a possible value of `h(g(f(x)))`.
pub open spec fn nested<A, B, C, D, F, G, H>(f: F, g: G, h: H, x: A, d: D) -> bool
    where
        F: FnOnce(A) -> B,
        G: FnOnce(B) -> C,
        H: FnOnce(C) -> D,
{
    exists|b: B, c: C|
        call_ensures(f, (x,), b) && #[trigger] call_ensures(g, (b,), c) && call_ensures(
            h,
            (c,),
            d,
        )
}

/// Every call of `f` returns the log it was given with `entries` added at the end.
pub open spec fn appends<T, A, B, F>(f: F, entries: Seq<T>) -> bool
    where
        F: FnOnce((Vec<T>, A)) -> (Vec<T>, B),
{
    forall|log: Vec<T>, a: A, out: (Vec<T>, B)|
        #[trigger] call_ensures(f, ((log, a),), out) ==> out.0@ == log@ + entries
}

/// Three steps in a row give what nesting the three calls gives.
///
/// Let `first` be a pipeline started from `f`, and `last` be `first` extended by
/// `g` and then by `h`. Then `last` accepts every `x` that can go through the
/// three steps, and whatever it yields for `x` is a value of `h(g(f(x)))`.
pub proof fn lemma_three_steps<A, B, C, D, F, G, H, P, Q>(
    f: F,
    g: G,
    h: H,
    first: P,
    last: Piped<Q, H>,
    x: A,
)
    where
        F: FnOnce(A) -> B,
        G: FnOnce(B) -> C,
        H: FnOnce(C) -> D,
        P: FnOnce(A) -> B,
        Q: FnOnce(A) -> C,
    requires
        stands_for(first, f),
        (Piped { head: first, step: g }).folds_to(last.head),
        last.step == h,
    ensures
        runs_through(f, g, h, x) ==> last.accepts(x),
        forall|d: D| #[trigger] last.yields(x, d) ==> nested(f, g, h, x, d),
{
}

/// Steps leave their marks in the order in which they were chained.
///
/// Let the two parts of a pipeline pass a log along with the value. If the
/// head always adds `earlier` to the log and the step always adds `later`,
/// then a run of the pipeline adds `earlier` followed by `later`.
pub proof fn lemma_log_order<T, A, B, C, P, F>(p: Piped<P, F>, earlier: Seq<T>, later: Seq<T>)
    where
        P: FnOnce((Vec<T>, A)) -> (Vec<T>, B),
        F: FnOnce((Vec<T>, B)) -> (Vec<T>, C),
    requires
        appends(p.head, earlier),
        appends(p.step, later),
    ensures
        forall|log: Vec<T>, a: A, out: (Vec<T>, C)|
            #[trigger] p.yields((log, a), out) ==> out.0@ == log@ + earlier + later,
{
    assert forall|log: Vec<T>, a: A, out: (Vec<T>, C)| #[trigger]
        p.yields((log, a), out) implies out.0@ == log@ + earlier + later by {
        let mid: (Vec<T>, B) = choose|b: (Vec<T>, B)|
            #[trigger] call_ensures(p.head, ((log, a),), b) && call_ensures(p.step, (b,), out);
        assert(call_ensures(p.step, ((mid.0, mid.1),), out));
    }
}

/// Folding a pipeline keeps the order of the marks.
///
/// With the head and the step as in [`lemma_log_order`], every closure that
/// the pipeline folds to adds `earlier` followed by `later` in one call. So
/// the marks of a pipeline of any length stand in the order of its steps.
pub proof fn lemma_log_order_folded<T, A, B, C, P, F, H>(
    p: Piped<P, F>,
    h: H,
    earlier: Seq<T>,
    later: Seq<T>,
)
    where
        P: FnOnce((Vec<T>, A)) -> (Vec<T>, B),
        F: FnOnce((Vec<T>, B)) -> (Vec<T>, C),
        H: FnOnce((Vec<T>, A)) -> (Vec<T>, C),
    requires
        appends(p.head, earlier),
        appends(p.step, later),
        p.folds_to(h),
    ensures
        appends(h, earlier + later),
{
    lemma_log_order(p, earlier, later);
    assert forall|log: Vec<T>, a: A, out: (Vec<T>, C)| #[trigger]
        call_ensures(h, ((log, a),), out) implies out.0@ == log@ + (earlier + later) by {
        assert(p.yields((log, a), out));
        assert(log@ + earlier + later == log@ + (earlier + later));
    }
}

} // verus!
