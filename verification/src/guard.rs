//! The guard contract and the guards built on it.
//!
//! A guard suppresses something when it is created and puts the earlier
//! state back when it is dropped. What a guard of each kind does to a
//! context is defined once, by [`GuardKind::after_acquire`],
//! [`GuardKind::saved_word`] and [`GuardKind::after_release`]; every guard
//! is verified against these.
use vstd::prelude::*;
use crate::context::{Context, ContextView};

verus! {

/// The kinds of guard.
#[derive(Clone, Copy, Debug, PartialEq, Eq, Structural)]
pub enum GuardKind {
    /// Suppresses nothing.
    NoOp,
    /// Suppresses local interrupts.
    IrqSave,
    /// Suppresses preemption.
    NoPreempt,
    /// Suppresses preemption and local interrupts.
    NoPreemptIrqSave,
}

impl GuardKind {
    /// Whether a guard of this kind is meant to suppress local interrupts.
    pub open spec fn masks_irqs(self) -> bool {
        self == GuardKind::IrqSave || self == GuardKind::NoPreemptIrqSave
    }

    /// Whether a guard of this kind is meant to suppress preemption.
    pub open spec fn stops_preempt(self) -> bool {
        self == GuardKind::NoPreempt || self == GuardKind::NoPreemptIrqSave
    }

    /// Whether a guard of this kind saves and restores the interrupt state
    /// of `cx`: never on a hosted target.
    pub open spec fn touches_irqs(self, cx: ContextView) -> bool {
        self.masks_irqs() && cx.privileged
    }

    /// Whether a guard of this kind calls the preemption hooks of `cx`: only
    /// where they exist.
    pub open spec fn touches_preempt(self, cx: ContextView) -> bool {
        self.stops_preempt() && cx.has_preempt_hooks()
    }

    /// Whether a guard of this kind can be acquired in `cx`: the count of
    /// preemption disables must have room for one more.
    pub open spec fn can_acquire(self, cx: ContextView) -> bool {
        self.touches_preempt(cx) ==> cx.preempt_depth < usize::MAX
    }

    /// The context after a guard of this kind was acquired in `cx`.
    /// Preemption is disabled before interrupts are.
    pub open spec fn after_acquire(self, cx: ContextView) -> ContextView {
        let unpreempted = if self.touches_preempt(cx) {
            cx.disable_preempt()
        } else {
            cx
        };
        if self.touches_irqs(cx) {
            unpreempted.local_irq_save_and_disable()
        } else {
            unpreempted
        }
    }

    /// The word that a guard of this kind saves when it is acquired in `cx`;
    /// zero where it saves nothing.
    pub open spec fn saved_word(self, cx: ContextView) -> usize {
        if self.touches_irqs(cx) {
            cx.irq_word()
        } else {
            0
        }
    }

    /// Whether a guard of this kind can be released in `cx`: there must be a
    /// preemption disable to undo.
    pub open spec fn can_release(self, cx: ContextView) -> bool {
        self.touches_preempt(cx) ==> cx.preempt_depth > 0
    }

    /// The context after a guard of this kind, holding `word`, was released
    /// in `cx`. Interrupts are restored before preemption is enabled.
    pub open spec fn after_release(self, cx: ContextView, word: usize) -> ContextView {
        let restored = if self.touches_irqs(cx) {
            cx.local_irq_restore(word)
        } else {
            cx
        };
        if self.touches_preempt(cx) {
            restored.enable_preempt()
        } else {
            restored
        }
    }
}

impl Context {
    /// Whether a guard of the given kind can be acquired in this context.
    pub fn can_acquire(&self, kind: GuardKind) -> (ok: bool)
        ensures
            ok == kind.can_acquire(self@),
    {
        match kind {
            GuardKind::NoPreempt | GuardKind::NoPreemptIrqSave => {
                !self.has_preempt_hooks() || self.preempt_depth() < usize::MAX
            },
            _ => true,
        }
    }

    /// Whether a guard of the given kind can be released in this context.
    pub fn can_release(&self, kind: GuardKind) -> (ok: bool)
        ensures
            ok == kind.can_release(self@),
    {
        match kind {
            GuardKind::NoPreempt | GuardKind::NoPreemptIrqSave => {
                !self.has_preempt_hooks() || self.preempt_depth() > 0
            },
            _ => true,
        }
    }
}

/// What every guard does: `acquire` suppresses and returns what `release`
/// needs to undo exactly that.
pub trait BaseGuard {
    /// The saved state when entering the critical section.
    type State: Clone + Copy;

    /// The kind of this guard, for contracts.
    spec fn spec_kind() -> GuardKind;

    /// The kind of this guard.
    #[verifier::when_used_as_spec(spec_kind)]
    fn kind() -> (kind: GuardKind)
        ensures
            kind == Self::spec_kind(),
    ;

    /// The machine word that a saved state holds; zero where the state
    /// holds nothing.
    spec fn word(state: Self::State) -> usize;

    /// Something that must be done before entering the critical section.
    fn acquire(cx: &mut Context) -> (state: Self::State)
        requires
            Self::kind().can_acquire(old(cx)@),
        ensures
            final(cx)@ == Self::kind().after_acquire(old(cx)@),
            Self::word(state) == Self::kind().saved_word(old(cx)@),
    ;

    /// Something that must be done after leaving the critical section.
    fn release(cx: &mut Context, state: Self::State)
        requires
            Self::kind().can_release(old(cx)@),
        ensures
            final(cx)@ == Self::kind().after_release(old(cx)@, Self::word(state)),
    ;
}

/// The saved state of a guard that has nothing to save.
#[derive(Clone, Copy, Debug, PartialEq, Eq, Structural)]
pub struct Nothing;

/// A no-op guard that does nothing around the critical section.
pub struct NoOp;

impl BaseGuard for NoOp {
    type State = Nothing;

    open spec fn spec_kind() -> GuardKind {
        GuardKind::NoOp
    }

    fn kind() -> (kind: GuardKind) {
        GuardKind::NoOp
    }

    open spec fn word(state: Nothing) -> usize {
        0
    }

    fn acquire(cx: &mut Context) -> (state: Nothing)
        ensures
            *final(cx) == *old(cx),
    {
        Nothing
    }

    fn release(cx: &mut Context, state: Nothing)
        ensures
            *final(cx) == *old(cx),
    {
    }
}

impl NoOp {
    /// Creates a new [`NoOp`] guard.
    pub fn new() -> (guard: Self)
        ensures
            guard == NoOp,
    {
        Self
    }
}

impl Drop for NoOp {
    fn drop(&mut self)
        opens_invariants none
        no_unwind
    {
    }
}

/// A guard that disables local interrupts around the critical section and
/// puts their earlier state back afterwards.
pub struct IrqSave(usize);

impl BaseGuard for IrqSave {
    type State = usize;

    open spec fn spec_kind() -> GuardKind {
        GuardKind::IrqSave
    }

    fn kind() -> (kind: GuardKind) {
        GuardKind::IrqSave
    }

    open spec fn word(state: usize) -> usize {
        state
    }

    fn acquire(cx: &mut Context) -> (state: usize) {
        if cx.privileged() {
            cx.local_irq_save_and_disable()
        } else {
            0
        }
    }

    fn release(cx: &mut Context, state: usize) {
        if cx.privileged() {
            cx.local_irq_restore(state);
        }
    }
}

impl IrqSave {
    /// The word that this guard holds.
    pub closed spec fn state(&self) -> usize {
        self.0
    }

    /// Creates a new [`IrqSave`] guard in `cx`.
    pub fn new(cx: &mut Context) -> (guard: Self)
        ensures
            final(cx)@ == GuardKind::IrqSave.after_acquire(old(cx)@),
            guard.state() == GuardKind::IrqSave.saved_word(old(cx)@),
    {
        Self(Self::acquire(cx))
    }

    /// Ends the critical section: releases in `cx` what this guard holds.
    pub fn drop(self, cx: &mut Context)
        ensures
            final(cx)@ == GuardKind::IrqSave.after_release(old(cx)@, self.state()),
    {
        Self::release(cx, self.0)
    }
}

/// A guard that forbids preemption around the critical section. Where the
/// kernel's hooks do not exist it does nothing.
pub struct NoPreempt;

impl BaseGuard for NoPreempt {
    type State = Nothing;

    open spec fn spec_kind() -> GuardKind {
        GuardKind::NoPreempt
    }

    fn kind() -> (kind: GuardKind) {
        GuardKind::NoPreempt
    }

    open spec fn word(state: Nothing) -> usize {
        0
    }

    fn acquire(cx: &mut Context) -> (state: Nothing) {
        if cx.has_preempt_hooks() {
            cx.disable_preempt();
        }
        Nothing
    }

    fn release(cx: &mut Context, state: Nothing) {
        if cx.has_preempt_hooks() {
            cx.enable_preempt();
        }
    }
}

impl NoPreempt {
    /// Creates a new [`NoPreempt`] guard in `cx`.
    pub fn new(cx: &mut Context) -> (guard: Self)
        requires
            GuardKind::NoPreempt.can_acquire(old(cx)@),
        ensures
            final(cx)@ == GuardKind::NoPreempt.after_acquire(old(cx)@),
    {
        let _ = Self::acquire(cx);
        Self
    }

    /// Ends the critical section: undoes in `cx` what creating this guard
    /// did.
    pub fn drop(self, cx: &mut Context)
        requires
            GuardKind::NoPreempt.can_release(old(cx)@),
        ensures
            final(cx)@ == GuardKind::NoPreempt.after_release(old(cx)@, 0),
    {
        Self::release(cx, Nothing)
    }
}

/// A guard that forbids preemption and disables local interrupts around the
/// critical section. Preemption is the outer bracket: it is disabled first
/// and enabled last.
pub struct NoPreemptIrqSave(usize);

impl BaseGuard for NoPreemptIrqSave {
    type State = usize;

    open spec fn spec_kind() -> GuardKind {
        GuardKind::NoPreemptIrqSave
    }

    fn kind() -> (kind: GuardKind) {
        GuardKind::NoPreemptIrqSave
    }

    open spec fn word(state: usize) -> usize {
        state
    }

    fn acquire(cx: &mut Context) -> (state: usize) {
        if cx.has_preempt_hooks() {
            cx.disable_preempt();
        }
        if cx.privileged() {
            cx.local_irq_save_and_disable()
        } else {
            0
        }
    }

    fn release(cx: &mut Context, state: usize) {
        if cx.privileged() {
            cx.local_irq_restore(state);
        }
        if cx.has_preempt_hooks() {
            cx.enable_preempt();
        }
    }
}

impl NoPreemptIrqSave {
    /// The word that this guard holds.
    pub closed spec fn state(&self) -> usize {
        self.0
    }

    /// Creates a new [`NoPreemptIrqSave`] guard in `cx`.
    pub fn new(cx: &mut Context) -> (guard: Self)
        requires
            GuardKind::NoPreemptIrqSave.can_acquire(old(cx)@),
        ensures
            final(cx)@ == GuardKind::NoPreemptIrqSave.after_acquire(old(cx)@),
            guard.state() == GuardKind::NoPreemptIrqSave.saved_word(old(cx)@),
    {
        Self(Self::acquire(cx))
    }

    /// Ends the critical section: releases in `cx` what this guard holds.
    pub fn drop(self, cx: &mut Context)
        requires
            GuardKind::NoPreemptIrqSave.can_release(old(cx)@),
        ensures
            final(cx)@ == GuardKind::NoPreemptIrqSave.after_release(old(cx)@, self.state()),
    {
        Self::release(cx, self.0)
    }
}

} // verus!
