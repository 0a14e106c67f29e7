use kernel_guard::{
    BaseGuard, Context, GuardKind, IrqSave, NoOp, NoPreempt, NoPreemptIrqSave, Nothing, Primitive,
};

fn flags(cx: &Context) -> (bool, usize) {
    (cx.irqs_enabled(), cx.preempt_depth())
}

#[test]
fn nested_irq_guards_restore_in_reverse_order() {
    let mut cx = Context::bare_metal(false);
    assert!(cx.irqs_enabled());

    let a = IrqSave::new(&mut cx);
    assert!(!cx.irqs_enabled());

    let b = IrqSave::new(&mut cx);
    assert!(!cx.irqs_enabled());

    b.drop(&mut cx);
    assert!(!cx.irqs_enabled());

    a.drop(&mut cx);
    assert!(cx.irqs_enabled());

    assert_eq!(
        cx.calls(),
        &vec![
            Primitive::SaveAndDisableIrqs,
            Primitive::SaveAndDisableIrqs,
            Primitive::RestoreIrqs(0),
            Primitive::RestoreIrqs(1),
        ]
    );
}

#[test]
fn nested_irq_states_hold_what_was_found() {
    let mut cx = Context::bare_metal(false);

    let a = <IrqSave as BaseGuard>::acquire(&mut cx);
    assert_eq!(a, 1);
    assert!(!cx.irqs_enabled());

    let b = <IrqSave as BaseGuard>::acquire(&mut cx);
    assert_eq!(b, 0);
    assert!(!cx.irqs_enabled());

    <IrqSave as BaseGuard>::release(&mut cx, b);
    assert!(!cx.irqs_enabled());

    <IrqSave as BaseGuard>::release(&mut cx, a);
    assert!(cx.irqs_enabled());
}

#[test]
fn hosted_guards_change_nothing() {
    for preemptive in [false, true] {
        let mut cx = Context::hosted(preemptive);
        assert!(!cx.privileged());
        assert!(!cx.has_preempt_hooks());
        let before = flags(&cx);

        {
            let _noop = NoOp::new();
        }
        assert_eq!(flags(&cx), before);

        let irq = IrqSave::new(&mut cx);
        assert_eq!(flags(&cx), before);
        irq.drop(&mut cx);
        assert_eq!(flags(&cx), before);

        let preempt = NoPreempt::new(&mut cx);
        assert_eq!(flags(&cx), before);
        preempt.drop(&mut cx);
        assert_eq!(flags(&cx), before);

        let both = NoPreemptIrqSave::new(&mut cx);
        assert_eq!(flags(&cx), before);
        both.drop(&mut cx);
        assert_eq!(flags(&cx), before);

        assert_eq!(before, (true, 0));
        assert!(cx.calls().is_empty());
    }
}

#[test]
fn hosted_irq_state_is_zero() {
    let mut cx = Context::hosted(false);
    assert_eq!(<IrqSave as BaseGuard>::acquire(&mut cx), 0);
    assert_eq!(<NoPreemptIrqSave as BaseGuard>::acquire(&mut cx), 0);
    <NoPreemptIrqSave as BaseGuard>::release(&mut cx, 7);
    <IrqSave as BaseGuard>::release(&mut cx, 7);
    assert_eq!(flags(&cx), (true, 0));
    assert!(cx.calls().is_empty());
}

#[test]
fn combined_guard_brackets_interrupts_with_preemption() {
    let mut cx = Context::bare_metal(true);
    assert!(cx.has_preempt_hooks());

    let guard = NoPreemptIrqSave::new(&mut cx);
    assert_eq!(
        cx.calls(),
        &vec![Primitive::DisablePreempt, Primitive::SaveAndDisableIrqs]
    );
    assert_eq!(flags(&cx), (false, 1));

    guard.drop(&mut cx);
    assert_eq!(
        cx.calls(),
        &vec![
            Primitive::DisablePreempt,
            Primitive::SaveAndDisableIrqs,
            Primitive::RestoreIrqs(1),
            Primitive::EnablePreempt,
        ]
    );
    assert_eq!(flags(&cx), (true, 0));
}

#[test]
fn combined_guard_without_hooks_touches_interrupts_only() {
    let mut cx = Context::bare_metal(false);
    assert!(!cx.has_preempt_hooks());

    let guard = NoPreemptIrqSave::new(&mut cx);
    assert_eq!(cx.calls(), &vec![Primitive::SaveAndDisableIrqs]);
    assert_eq!(flags(&cx), (false, 0));

    guard.drop(&mut cx);
    assert_eq!(
        cx.calls(),
        &vec![Primitive::SaveAndDisableIrqs, Primitive::RestoreIrqs(1)]
    );
    assert_eq!(flags(&cx), (true, 0));
}

#[test]
fn preempt_guard_counts_up_and_down() {
    let mut cx = Context::bare_metal(true);

    let outer = NoPreempt::new(&mut cx);
    assert_eq!(flags(&cx), (true, 1));
    let inner = NoPreempt::new(&mut cx);
    assert_eq!(flags(&cx), (true, 2));

    inner.drop(&mut cx);
    assert_eq!(flags(&cx), (true, 1));
    outer.drop(&mut cx);
    assert_eq!(flags(&cx), (true, 0));

    assert_eq!(
        cx.calls(),
        &vec![
            Primitive::DisablePreempt,
            Primitive::DisablePreempt,
            Primitive::EnablePreempt,
            Primitive::EnablePreempt,
        ]
    );
}

#[test]
fn preempt_guard_without_hooks_does_nothing() {
    let mut cx = Context::bare_metal(false);
    let guard = NoPreempt::new(&mut cx);
    assert_eq!(flags(&cx), (true, 0));
    guard.drop(&mut cx);
    assert_eq!(flags(&cx), (true, 0));
    assert!(cx.calls().is_empty());
}

#[test]
fn round_trip_restores_flags_for_every_guard() {
    for privileged in [false, true] {
        for preemptive in [false, true] {
            for irqs_enabled in [false, true] {
                for depth in [0usize, 1, 41, usize::MAX - 1] {
                    let start = (irqs_enabled, depth);
                    let mut cx = Context::new(privileged, preemptive, irqs_enabled, depth);

                    let state = <NoOp as BaseGuard>::acquire(&mut cx);
                    <NoOp as BaseGuard>::release(&mut cx, state);
                    assert_eq!(flags(&cx), start);

                    let guard = IrqSave::new(&mut cx);
                    guard.drop(&mut cx);
                    assert_eq!(flags(&cx), start);

                    assert!(cx.can_acquire(GuardKind::NoPreempt));
                    let guard = NoPreempt::new(&mut cx);
                    assert!(cx.can_release(GuardKind::NoPreempt));
                    guard.drop(&mut cx);
                    assert_eq!(flags(&cx), start);

                    assert!(cx.can_acquire(GuardKind::NoPreemptIrqSave));
                    let guard = NoPreemptIrqSave::new(&mut cx);
                    assert!(cx.can_release(GuardKind::NoPreemptIrqSave));
                    guard.drop(&mut cx);
                    assert_eq!(flags(&cx), start);
                }
            }
        }
    }
}

#[test]
fn nested_mixed_guards_restore_flags() {
    for irqs_enabled in [false, true] {
        for depth in [0usize, 3] {
            let mut cx = Context::new(true, true, irqs_enabled, depth);

            let a = NoPreempt::new(&mut cx);
            assert_eq!(flags(&cx), (irqs_enabled, depth + 1));
            let b = IrqSave::new(&mut cx);
            assert_eq!(flags(&cx), (false, depth + 1));
            let c = NoPreemptIrqSave::new(&mut cx);
            assert_eq!(flags(&cx), (false, depth + 2));
            let d = NoOp::new();
            assert_eq!(flags(&cx), (false, depth + 2));
            let e = IrqSave::new(&mut cx);
            assert_eq!(flags(&cx), (false, depth + 2));

            e.drop(&mut cx);
            assert_eq!(flags(&cx), (false, depth + 2));
            drop(d);
            assert_eq!(flags(&cx), (false, depth + 2));
            c.drop(&mut cx);
            assert_eq!(flags(&cx), (false, depth + 1));
            b.drop(&mut cx);
            assert_eq!(flags(&cx), (irqs_enabled, depth + 1));
            a.drop(&mut cx);
            assert_eq!(flags(&cx), (irqs_enabled, depth));
        }
    }
}

#[test]
fn deeply_nested_guards_restore_flags() {
    let mut cx = Context::bare_metal(true);
    let mut held = Vec::new();
    for _ in 0..100 {
        held.push(NoPreemptIrqSave::new(&mut cx));
    }
    assert_eq!(flags(&cx), (false, 100));
    while let Some(guard) = held.pop() {
        guard.drop(&mut cx);
    }
    assert_eq!(flags(&cx), (true, 0));
    assert_eq!(cx.calls().len(), 400);
}

#[test]
fn noop_never_alters_context() {
    for privileged in [false, true] {
        for irqs_enabled in [false, true] {
            let mut cx = Context::new(privileged, true, irqs_enabled, 2);
            let first: Nothing = <NoOp as BaseGuard>::acquire(&mut cx);
            let second: Nothing = <NoOp as BaseGuard>::acquire(&mut cx);
            assert_eq!(first, Nothing);
            assert_eq!(second, Nothing);
            <NoOp as BaseGuard>::release(&mut cx, first);
            <NoOp as BaseGuard>::release(&mut cx, second);
            <NoOp as BaseGuard>::release(&mut cx, Nothing);
            {
                let _guard = NoOp::new();
                let _other = NoOp::new();
            }
            assert_eq!(flags(&cx), (irqs_enabled, 2));
            assert!(cx.calls().is_empty());
        }
    }
}

#[test]
fn irq_guard_keeps_interrupts_disabled() {
    let mut cx = Context::new(true, false, false, 0);
    assert!(!cx.irqs_enabled());

    let guard = IrqSave::new(&mut cx);
    assert!(!cx.irqs_enabled());
    guard.drop(&mut cx);
    assert!(!cx.irqs_enabled());

    let mut cx = Context::new(true, true, false, 0);
    let guard = NoPreemptIrqSave::new(&mut cx);
    assert!(!cx.irqs_enabled());
    guard.drop(&mut cx);
    assert!(!cx.irqs_enabled());
    assert_eq!(
        cx.calls(),
        &vec![
            Primitive::DisablePreempt,
            Primitive::SaveAndDisableIrqs,
            Primitive::RestoreIrqs(0),
            Primitive::EnablePreempt,
        ]
    );
}

#[test]
fn preempt_depth_limits_what_can_be_acquired() {
    let full = Context::new(true, true, true, usize::MAX);
    assert!(full.can_acquire(GuardKind::NoOp));
    assert!(full.can_acquire(GuardKind::IrqSave));
    assert!(!full.can_acquire(GuardKind::NoPreempt));
    assert!(!full.can_acquire(GuardKind::NoPreemptIrqSave));

    let nearly = Context::new(true, true, true, usize::MAX - 1);
    assert!(nearly.can_acquire(GuardKind::NoPreempt));
    assert!(nearly.can_acquire(GuardKind::NoPreemptIrqSave));

    let no_hooks = Context::new(true, false, true, usize::MAX);
    assert!(no_hooks.can_acquire(GuardKind::NoPreempt));
    assert!(no_hooks.can_acquire(GuardKind::NoPreemptIrqSave));

    let hosted = Context::new(false, true, true, usize::MAX);
    assert!(hosted.can_acquire(GuardKind::NoPreempt));
    assert!(hosted.can_acquire(GuardKind::NoPreemptIrqSave));
}

#[test]
fn preempt_depth_limits_what_can_be_released() {
    let fresh = Context::bare_metal(true);
    assert!(fresh.can_release(GuardKind::NoOp));
    assert!(fresh.can_release(GuardKind::IrqSave));
    assert!(!fresh.can_release(GuardKind::NoPreempt));
    assert!(!fresh.can_release(GuardKind::NoPreemptIrqSave));

    let held = Context::new(true, true, true, 1);
    assert!(held.can_release(GuardKind::NoPreempt));
    assert!(held.can_release(GuardKind::NoPreemptIrqSave));

    let no_hooks = Context::bare_metal(false);
    assert!(no_hooks.can_release(GuardKind::NoPreempt));
    assert!(no_hooks.can_release(GuardKind::NoPreemptIrqSave));

    let hosted = Context::hosted(true);
    assert!(hosted.can_release(GuardKind::NoPreempt));
    assert!(hosted.can_release(GuardKind::NoPreemptIrqSave));
}

#[test]
fn guard_at_the_last_free_depth() {
    let mut cx = Context::new(true, true, true, usize::MAX - 1);
    let guard = NoPreempt::new(&mut cx);
    assert_eq!(cx.preempt_depth(), usize::MAX);
    assert!(!cx.can_acquire(GuardKind::NoPreempt));
    guard.drop(&mut cx);
    assert_eq!(cx.preempt_depth(), usize::MAX - 1);
}

#[test]
fn every_guard_names_its_kind() {
    assert_eq!(<NoOp as BaseGuard>::kind(), GuardKind::NoOp);
    assert_eq!(<IrqSave as BaseGuard>::kind(), GuardKind::IrqSave);
    assert_eq!(<NoPreempt as BaseGuard>::kind(), GuardKind::NoPreempt);
    assert_eq!(<NoPreemptIrqSave as BaseGuard>::kind(), GuardKind::NoPreemptIrqSave);
}

fn critical_section<G: BaseGuard>(cx: &mut Context) -> (bool, usize) {
    assert!(cx.can_acquire(G::kind()));
    let state = G::acquire(cx);
    let inside = flags(cx);
    assert!(cx.can_release(G::kind()));
    G::release(cx, state);
    inside
}

#[test]
fn guards_suppress_while_held() {
    let mut cx = Context::bare_metal(true);
    assert_eq!(critical_section::<NoOp>(&mut cx), (true, 0));
    assert_eq!(flags(&cx), (true, 0));
    assert_eq!(critical_section::<IrqSave>(&mut cx), (false, 0));
    assert_eq!(flags(&cx), (true, 0));
    assert_eq!(critical_section::<NoPreempt>(&mut cx), (true, 1));
    assert_eq!(flags(&cx), (true, 0));
    assert_eq!(critical_section::<NoPreemptIrqSave>(&mut cx), (false, 1));
    assert_eq!(flags(&cx), (true, 0));
}
