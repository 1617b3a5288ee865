use contract_tools::hook::{
    direct_hook_order, nested_hook_order, vetoed_hook_order, Hook, MarkHook, Trace, TraceEvent,
    TraceInner, VetoHook,
};

#[test]
fn nested_hooks_run_in_strict_nesting_order() {
    let mut trace = Trace::new();
    let result = nested_hook_order(&mut trace);
    assert_eq!(result, Some(()));
    assert_eq!(
        trace.events,
        vec![
            TraceEvent::Before(1),
            TraceEvent::Before(2),
            TraceEvent::Inner,
            TraceEvent::After(2),
            TraceEvent::After(1),
        ]
    );
}

#[test]
fn veto_skips_inner_and_inner_hooks_but_not_outer_after() {
    let mut trace = Trace::new();
    let result = vetoed_hook_order(&mut trace);
    // a veto is a valid outcome, distinguished from a failure: the call
    // returns, with no result for the guarded mutation
    assert_eq!(result, None);
    assert_eq!(
        trace.events,
        vec![TraceEvent::Before(1), TraceEvent::Before(2), TraceEvent::After(1)]
    );
}

#[test]
fn empty_composition_runs_inner_directly() {
    let mut trace = Trace::new();
    let result = direct_hook_order(&mut trace);
    assert_eq!(result, Some(()));
    assert_eq!(trace.events, vec![TraceEvent::Inner]);
}

#[test]
fn composition_nests_first_hook_outermost() {
    let mut trace = Trace::new();
    let result =
        <(MarkHook<7>, MarkHook<9>) as Hook<Trace, ()>>::hook(&mut trace, &(), TraceInner);
    assert_eq!(result, Some(()));
    assert_eq!(
        trace.events,
        vec![
            TraceEvent::Before(7),
            TraceEvent::Before(9),
            TraceEvent::Inner,
            TraceEvent::After(9),
            TraceEvent::After(7),
        ]
    );
}

#[test]
fn nested_composition_is_associative_in_behaviour() {
    let mut left = Trace::new();
    let left_result = <((MarkHook<1>, MarkHook<2>), MarkHook<3>) as Hook<Trace, ()>>::hook(
        &mut left,
        &(),
        TraceInner,
    );
    let mut right = Trace::new();
    let right_result = <(MarkHook<1>, (MarkHook<2>, MarkHook<3>)) as Hook<Trace, ()>>::hook(
        &mut right,
        &(),
        TraceInner,
    );
    assert_eq!(left_result, right_result);
    assert_eq!(left.events, right.events);
    assert_eq!(
        left.events,
        vec![
            TraceEvent::Before(1),
            TraceEvent::Before(2),
            TraceEvent::Before(3),
            TraceEvent::Inner,
            TraceEvent::After(3),
            TraceEvent::After(2),
            TraceEvent::After(1),
        ]
    );
}

#[test]
fn outer_veto_prevents_everything_nested() {
    let mut trace = Trace::new();
    let result =
        <(VetoHook<5>, MarkHook<6>) as Hook<Trace, ()>>::hook(&mut trace, &(), TraceInner);
    assert_eq!(result, None);
    assert_eq!(trace.events, vec![TraceEvent::Before(5)]);
}
