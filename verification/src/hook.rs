//! Lifecycle hook protocol: composable wrappers around a guarded mutation.
//!
//! A [`Hook`] wraps a single-use continuation (an [`Inner`]) that performs a
//! guarded mutation of a carrier. The hook may work before and after running
//! the continuation, or decline to run it at all — a veto, which is a valid
//! outcome and not a failure.
//!
//! An ordered pair of hooks is itself a hook, nesting the second inside the
//! first: the first hook's before-work runs first, its after-work runs last,
//! and a veto by either hook prevents everything nested inside it while the
//! hooks around it still finish. Composition is associative, and the unit
//! type is the neutral, empty composition that runs the mutation directly.

use vstd::prelude::*;

verus! {

/// A one-shot continuation that performs a guarded mutation on a carrier.
pub trait Inner<C: View>: Sized {
    /// The result type of the guarded mutation.
    type Output;

    /// The carrier state after the mutation runs, as a function of the state it runs in.
    spec fn effect(self, c: C::V) -> C::V;

    /// The value the mutation returns, as a function of the state it runs in.
    spec fn output(self, c: C::V) -> Self::Output;

    /// Performs the mutation. Consuming `self` makes the continuation single-use.
    fn run(self, contract: &mut C) -> (r: Self::Output)
        ensures
            final(contract)@ == self.effect(old(contract)@),
            r == self.output(old(contract)@),
    ;
}

/// A hook wraps a guarded mutation: it may work before and after the mutation,
/// or decline to run it at all (a veto, reported as `None`).
pub trait Hook<C: View, A: View> {
    /// Whether the hook runs the guarded mutation from this starting state.
    spec fn calls_inner(c: C::V, a: A::V) -> bool;

    /// The state in which the guarded mutation runs.
    spec fn enter(c: C::V, a: A::V) -> C::V;

    /// The final state, as a function of the state the mutation left behind.
    spec fn exit(c: C::V, a: A::V) -> C::V;

    /// The final state when the hook declines to run the mutation.
    spec fn veto_exit(c: C::V, a: A::V) -> C::V;

    /// Wraps `f` for action `args`: returns `Some` of the mutation's result,
    /// or `None` when the hook vetoed the operation.
    fn hook<F: Inner<C>>(contract: &mut C, args: &A, f: F) -> (r: Option<F::Output>)
        ensures
            ({
                let c0 = old(contract)@;
                let a = args@;
                if Self::calls_inner(c0, a) {
                    &&& final(contract)@ == Self::exit(f.effect(Self::enter(c0, a)), a)
                    &&& r == Some(f.output(Self::enter(c0, a)))
                } else {
                    &&& final(contract)@ == Self::veto_exit(c0, a)
                    &&& r is None
                }
            }),
    ;
}

/// The empty composition: the guarded mutation runs directly.
impl<C: View, A: View> Hook<C, A> for () {
    open spec fn calls_inner(c: C::V, a: A::V) -> bool {
        true
    }

    open spec fn enter(c: C::V, a: A::V) -> C::V {
        c
    }

    open spec fn exit(c: C::V, a: A::V) -> C::V {
        c
    }

    open spec fn veto_exit(c: C::V, a: A::V) -> C::V {
        c
    }

    fn hook<F: Inner<C>>(contract: &mut C, args: &A, f: F) -> (r: Option<F::Output>) {
        Some(f.run(contract))
    }
}

/// A continuation that runs hook `U` around the continuation it carries.
/// Used to nest the second hook of a pair inside the first.
struct Wrapped<'a, C, A, U, F> {
    args: &'a A,
    f: F,
    hook_marker: core::marker::PhantomData<U>,
    carrier_marker: core::marker::PhantomData<C>,
}

impl<'a, C: View, A: View, U: Hook<C, A>, F: Inner<C>> Inner<C> for Wrapped<'a, C, A, U, F> {
    type Output = Option<F::Output>;

    closed spec fn effect(self, c: C::V) -> C::V {
        if U::calls_inner(c, self.args@) {
            U::exit(self.f.effect(U::enter(c, self.args@)), self.args@)
        } else {
            U::veto_exit(c, self.args@)
        }
    }

    closed spec fn output(self, c: C::V) -> Option<F::Output> {
        if U::calls_inner(c, self.args@) {
            Some(self.f.output(U::enter(c, self.args@)))
        } else {
            None
        }
    }

    fn run(self, contract: &mut C) -> (r: Option<F::Output>) {
        U::hook(contract, self.args, self.f)
    }
}

/// An ordered pair of hooks composes into one hook: the first is outermost.
impl<C: View, A: View, T: Hook<C, A>, U: Hook<C, A>> Hook<C, A> for (T, U) {
    open spec fn calls_inner(c: C::V, a: A::V) -> bool {
        T::calls_inner(c, a) && U::calls_inner(T::enter(c, a), a)
    }

    open spec fn enter(c: C::V, a: A::V) -> C::V {
        U::enter(T::enter(c, a), a)
    }

    open spec fn exit(c: C::V, a: A::V) -> C::V {
        T::exit(U::exit(c, a), a)
    }

    open spec fn veto_exit(c: C::V, a: A::V) -> C::V {
        if T::calls_inner(c, a) {
            T::exit(U::veto_exit(T::enter(c, a), a), a)
        } else {
            T::veto_exit(c, a)
        }
    }

    fn hook<F: Inner<C>>(contract: &mut C, args: &A, f: F) -> (r: Option<F::Output>) {
        let wrapped = Wrapped {
            args,
            f,
            hook_marker: core::marker::PhantomData::<U>,
            carrier_marker: core::marker::PhantomData::<C>,
        };
        match T::hook(contract, args, wrapped) {
            Some(inner_result) => inner_result,
            None => None,
        }
    }
}

/// Composition is associative: pairing three hooks to the left and to the
/// right composes into the same behaviour.
pub proof fn lemma_compose_associative<C: View, A: View, T: Hook<C, A>, U: Hook<C, A>, W: Hook<
    C,
    A,
>>(c: C::V, m: C::V, a: A::V)
    ensures
        <((T, U), W) as Hook<C, A>>::calls_inner(c, a) == <(T, (U, W)) as Hook<C, A>>::calls_inner(
            c,
            a,
        ),
        <((T, U), W) as Hook<C, A>>::enter(c, a) == <(T, (U, W)) as Hook<C, A>>::enter(c, a),
        <((T, U), W) as Hook<C, A>>::exit(m, a) == <(T, (U, W)) as Hook<C, A>>::exit(m, a),
        <((T, U), W) as Hook<C, A>>::veto_exit(c, a) == <(T, (U, W)) as Hook<C, A>>::veto_exit(
            c,
            a,
        ),
{
}

/// The empty composition is neutral: pairing a hook with it, on either side,
/// composes into the hook's own behaviour.
pub proof fn lemma_identity_neutral<C: View, A: View, T: Hook<C, A>>(c: C::V, m: C::V, a: A::V)
    ensures
        <((), T) as Hook<C, A>>::calls_inner(c, a) == T::calls_inner(c, a),
        <((), T) as Hook<C, A>>::enter(c, a) == T::enter(c, a),
        <((), T) as Hook<C, A>>::exit(m, a) == T::exit(m, a),
        <((), T) as Hook<C, A>>::veto_exit(c, a) == T::veto_exit(c, a),
        <(T, ()) as Hook<C, A>>::calls_inner(c, a) == T::calls_inner(c, a),
        <(T, ()) as Hook<C, A>>::enter(c, a) == T::enter(c, a),
        <(T, ()) as Hook<C, A>>::exit(m, a) == T::exit(m, a),
        !T::calls_inner(c, a) ==> <(T, ()) as Hook<C, A>>::veto_exit(c, a) == T::veto_exit(c, a),
{
}

/// One observed step of a traced run.
#[derive(Clone, Copy, Debug, PartialEq, Eq, Structural)]
pub enum TraceEvent {
    /// A hook's work before the guarded mutation, tagged with the hook's mark.
    Before(u64),
    /// The guarded mutation itself.
    Inner,
    /// A hook's work after the guarded mutation, tagged with the hook's mark.
    After(u64),
}

/// A carrier that records every step of a run, making the order in which
/// hooks and the guarded mutation execute observable.
#[derive(Debug)]
pub struct Trace {
    /// The steps observed so far, oldest first.
    pub events: Vec<TraceEvent>,
}

impl View for Trace {
    type V = Seq<TraceEvent>;

    open spec fn view(&self) -> Seq<TraceEvent> {
        self.events@
    }
}

impl Trace {
    /// An empty trace.
    pub fn new() -> (r: Trace)
        ensures
            r@ == Seq::<TraceEvent>::empty(),
    {
        Trace { events: Vec::new() }
    }
}

/// A guarded mutation that records that it ran.
pub struct TraceInner;

impl Inner<Trace> for TraceInner {
    type Output = ();

    open spec fn effect(self, t: Seq<TraceEvent>) -> Seq<TraceEvent> {
        t.push(TraceEvent::Inner)
    }

    open spec fn output(self, t: Seq<TraceEvent>) -> () {
        ()
    }

    fn run(self, contract: &mut Trace) -> (r: ()) {
        contract.events.push(TraceEvent::Inner);
    }
}

/// A hook that records its mark before and after the guarded mutation.
pub struct MarkHook<const N: u64>;

impl<A: View, const N: u64> Hook<Trace, A> for MarkHook<N> {
    open spec fn calls_inner(t: Seq<TraceEvent>, a: A::V) -> bool {
        true
    }

    open spec fn enter(t: Seq<TraceEvent>, a: A::V) -> Seq<TraceEvent> {
        t.push(TraceEvent::Before(N))
    }

    open spec fn exit(t: Seq<TraceEvent>, a: A::V) -> Seq<TraceEvent> {
        t.push(TraceEvent::After(N))
    }

    open spec fn veto_exit(t: Seq<TraceEvent>, a: A::V) -> Seq<TraceEvent> {
        t
    }

    fn hook<F: Inner<Trace>>(contract: &mut Trace, args: &A, f: F) -> (r: Option<F::Output>) {
        contract.events.push(TraceEvent::Before(N));
        let out = f.run(contract);
        contract.events.push(TraceEvent::After(N));
        Some(out)
    }
}

/// A hook that records its mark and then declines the guarded mutation:
/// a veto, not a failure.
pub struct VetoHook<const N: u64>;

impl<A: View, const N: u64> Hook<Trace, A> for VetoHook<N> {
    open spec fn calls_inner(t: Seq<TraceEvent>, a: A::V) -> bool {
        false
    }

    open spec fn enter(t: Seq<TraceEvent>, a: A::V) -> Seq<TraceEvent> {
        t
    }

    open spec fn exit(t: Seq<TraceEvent>, a: A::V) -> Seq<TraceEvent> {
        t
    }

    open spec fn veto_exit(t: Seq<TraceEvent>, a: A::V) -> Seq<TraceEvent> {
        t.push(TraceEvent::Before(N))
    }

    fn hook<F: Inner<Trace>>(contract: &mut Trace, args: &A, f: F) -> (r: Option<F::Output>) {
        contract.events.push(TraceEvent::Before(N));
        None
    }
}

/// Two hooks wrap a mutation in strict nesting order: the first hook's work
/// encloses the second's, which encloses the mutation itself.
pub fn nested_hook_order(trace: &mut Trace) -> (r: Option<()>)
    ensures
        r == Some(()),
        final(trace)@ == old(trace)@ + seq![
            TraceEvent::Before(1),
            TraceEvent::Before(2),
            TraceEvent::Inner,
            TraceEvent::After(2),
            TraceEvent::After(1),
        ],
{
    let r = <(MarkHook<1>, MarkHook<2>) as Hook<Trace, ()>>::hook(trace, &(), TraceInner);
    proof {
        assert(final(trace)@ =~= old(trace)@ + seq![
            TraceEvent::Before(1),
            TraceEvent::Before(2),
            TraceEvent::Inner,
            TraceEvent::After(2),
            TraceEvent::After(1),
        ]);
    }
    r
}

/// When the inner of two nested hooks vetoes, neither the mutation nor the
/// vetoing hook's after-work runs, but the outer hook still finishes.
pub fn vetoed_hook_order(trace: &mut Trace) -> (r: Option<()>)
    ensures
        r is None,
        final(trace)@ == old(trace)@ + seq![
            TraceEvent::Before(1),
            TraceEvent::Before(2),
            TraceEvent::After(1),
        ],
{
    let r = <(MarkHook<1>, VetoHook<2>) as Hook<Trace, ()>>::hook(trace, &(), TraceInner);
    proof {
        assert(final(trace)@ =~= old(trace)@ + seq![
            TraceEvent::Before(1),
            TraceEvent::Before(2),
            TraceEvent::After(1),
        ]);
    }
    r
}

/// Composing zero hooks is the identity: the mutation runs directly.
pub fn direct_hook_order(trace: &mut Trace) -> (r: Option<()>)
    ensures
        r == Some(()),
        final(trace)@ == old(trace)@ + seq![TraceEvent::Inner],
{
    let r = <() as Hook<Trace, ()>>::hook(trace, &(), TraceInner);
    proof {
        assert(final(trace)@ =~= old(trace)@ + seq![TraceEvent::Inner]);
    }
    r
}

} // verus!
