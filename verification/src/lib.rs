//! Function pipelines: single-argument steps chained so that each one runs on
//! what the one before it returned.
//!
//! A pipeline is started from one step with [`pipe`] and grows by one step with
//! each call of `.pipe(..)`. The result is a [`Piped`] value: everything built
//! so far as its `head`, the newest step as its `step`. It is run with
//! [`Piped::invoke`], or turned into a plain closure with [`Piped::into_fn`].
//!
//! Steps are `FnOnce` values. What a step demands of its input and promises of
//! its output is read through `call_requires` and `call_ensures`; the contracts
//! here say what a pipeline demands and promises in those terms.
use vstd::prelude::*;

pub mod laws;

verus! {

/// `p` can take the place of `f`: it may be called on whatever `f` may be called
/// on, and whatever it returns, `f` could have returned for the same input.
pub open spec fn stands_for<A, B, P, F>(p: P, f: F) -> bool
    where
        P: FnOnce(A) -> B,
        F: FnOnce(A) -> B,
{
    &&& forall|a: A| call_requires(f, (a,)) ==> #[trigger] call_requires(p, (a,))
    &&& forall|a: A, b: B| #[trigger] call_ensures(p, (a,), b) ==> call_ensures(f, (a,), b)
}

/// A pipeline of two parts: `head` runs first, `step` runs on what `head` returned.
///
/// A longer pipeline has the same shape. Its `head` is then a closure that
/// stands for all the steps but the last one.
pub struct Piped<P, F> {
    pub head: P,
    pub step: F,
}

impl<P, F> Piped<P, F> {
    /// The pipeline may be run on `a`: `head` may be called on `a`, and `step`
    /// may be called on every value that `head` can return for it.
    pub open spec fn accepts<A, B, C>(self, a: A) -> bool
        where
            P: FnOnce(A) -> B,
            F: FnOnce(B) -> C,
    {
        &&& call_requires(self.head, (a,))
        &&& forall|b: B|
            #[trigger] call_ensures(self.head, (a,), b) ==> call_requires(self.step, (b,))
    }

    /// Running the pipeline on `a` can give `c`: `head` can turn `a` into some
    /// `b` that `step` can turn into `c`.
    pub open spec fn yields<A, B, C>(self, a: A, c: C) -> bool
        where
            P: FnOnce(A) -> B,
            F: FnOnce(B) -> C,
    {
        exists|b: B|
            #[trigger] call_ensures(self.head, (a,), b) && call_ensures(self.step, (b,), c)
    }

    /// `h` can take the place of the whole pipeline: it may be called on
    /// whatever the pipeline accepts, and returns only what the pipeline yields.
    pub open spec fn folds_to<A, B, C, H>(self, h: H) -> bool
        where
            P: FnOnce(A) -> B,
            F: FnOnce(B) -> C,
            H: FnOnce(A) -> C,
    {
        &&& forall|a: A| self.accepts(a) ==> #[trigger] call_requires(h, (a,))
        &&& forall|a: A, c: C| #[trigger] call_ensures(h, (a,), c) ==> self.yields(a, c)
    }

    /// Runs the pipeline on `a`: first `head`, then `step` on its result.
    pub fn invoke<A, B, C>(self, a: A) -> (c: C)
        where
            P: FnOnce(A) -> B,
            F: FnOnce(B) -> C,
        requires
            self.accepts(a),
        ensures
            self.yields(a, c),
    {
        let b = (self.head)(a);
        (self.step)(b)
    }

    /// Turns the pipeline into a single closure that runs it.
    pub fn into_fn<A, B, C>(self) -> (h: impl FnOnce(A) -> C)
        where
            P: FnOnce(A) -> B,
            F: FnOnce(B) -> C,
        ensures
            self.folds_to(h),
    {
        move |a: A| -> (c: C)
            requires
                self.accepts(a),
            ensures
                self.yields(a, c),
            { self.invoke(a) }
    }

    /// Appends `g` to the pipeline. The pipeline so far is folded into the head
    /// of the new one, and `g` is its step.
    pub fn pipe<A, B, C, D, G>(self, g: G) -> (p: Piped<impl FnOnce(A) -> C, G>)
        where
            P: FnOnce(A) -> B,
            F: FnOnce(B) -> C,
            G: FnOnce(C) -> D,
        ensures
            self.folds_to(p.head),
            p.step == g,
    {
        Piped { head: self.into_fn(), step: g }
    }
}

/// Chaining for every single-argument callable: `f.pipe(g)` is the pipeline
/// that runs `f` and then `g`.
///
/// A [`Piped`] value is extended by its own method of the same name, so that
/// `.pipe(..)` can be called again and again.
pub trait Pipe<A, B, C>: Sized {
    /// Puts `f` behind `self`.
    fn pipe<F>(self, f: F) -> (p: Piped<Self, F>)
        where
            F: FnOnce(B) -> C,
        ensures
            p.head == self,
            p.step == f,
    ;
}

impl<F1, A, B, C> Pipe<A, B, C> for F1
    where
        F1: FnOnce(A) -> B,
{
    fn pipe<F2>(self, f: F2) -> (p: Piped<Self, F2>)
        where
            F2: FnOnce(B) -> C,
    {
        Piped { head: self, step: f }
    }
}

/// Starts a pipeline from its first step.
///
/// The result and `f` cannot be told apart by calling them: each may be called
/// where the other may, and each returns what the other can return. A closure
/// passed here usually needs the type of its parameter written out, since
/// nothing else fixes it.
pub fn pipe<F, A, B>(f: F) -> (p: impl FnOnce(A) -> B)
    where
        F: FnOnce(A) -> B,
    ensures
        stands_for(p, f),
        stands_for(f, p),
{
    f
}

} // verus!
