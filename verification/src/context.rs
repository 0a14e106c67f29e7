//! The execution context that the guards act on.
//!
//! A guard changes two things: whether local interrupts are enabled, and how
//! often preemption has been disabled. Both belong to the one execution
//! context (one core, one task) that the guard is created in. [`Context`]
//! holds them as plain values, next to the two facts about the build that
//! decide what a guard does at all, and records each primitive that is
//! called on it, in order.
use vstd::prelude::*;

verus! {

/// One call of a platform primitive or of a preemption hook.
#[derive(Clone, Copy, Debug, PartialEq, Eq, Structural)]
pub enum Primitive {
    /// The kernel's hook that forbids preemption.
    DisablePreempt,
    /// Saving the interrupt state and disabling local interrupts.
    SaveAndDisableIrqs,
    /// Restoring the interrupt state from the given saved word.
    RestoreIrqs(usize),
    /// The kernel's hook that allows preemption again.
    EnablePreempt,
}

/// The suppression flags of an execution context.
pub struct Flags {
    /// Whether local interrupts are enabled.
    pub irqs_enabled: bool,
    /// How many calls of the disabling hook are still to be undone.
    /// Preemption is possible only at zero.
    pub preempt_depth: nat,
}

/// What a [`Context`] stands for.
pub struct ContextView {
    /// Whether the code runs on a privileged, bare-metal target. On a hosted
    /// target nothing can be suppressed.
    pub privileged: bool,
    /// Whether the build is for a preemptive system, with the kernel's hooks
    /// in place.
    pub preemptive: bool,
    /// Whether local interrupts are enabled.
    pub irqs_enabled: bool,
    /// How many calls of the disabling hook are still to be undone.
    pub preempt_depth: nat,
    /// The primitives called so far, oldest first.
    pub calls: Seq<Primitive>,
}

/// Whether restoring from `word` enables interrupts.
pub open spec fn word_enables(word: usize) -> bool {
    word != 0
}

impl ContextView {
    /// The suppression flags alone.
    pub open spec fn flags(self) -> Flags {
        Flags { irqs_enabled: self.irqs_enabled, preempt_depth: self.preempt_depth }
    }

    /// Whether preemption is possible.
    pub open spec fn preempt_enabled(self) -> bool {
        self.preempt_depth == 0
    }

    /// Whether `self` and `other` differ at most in the calls recorded.
    pub open spec fn agrees_with(self, other: ContextView) -> bool {
        &&& self.privileged == other.privileged
        &&& self.preemptive == other.preemptive
        &&& self.flags() == other.flags()
    }

    /// Whether the kernel's preemption hooks exist in this context.
    pub open spec fn has_preempt_hooks(self) -> bool {
        self.privileged && self.preemptive
    }

    /// The machine word that saving the interrupt state of this context
    /// yields: one where interrupts are enabled, zero where they are not.
    pub open spec fn irq_word(self) -> usize {
        if self.irqs_enabled {
            1
        } else {
            0
        }
    }

    /// The context after its interrupt state was saved and interrupts were
    /// disabled.
    pub open spec fn local_irq_save_and_disable(self) -> ContextView {
        ContextView {
            irqs_enabled: false,
            calls: self.calls.push(Primitive::SaveAndDisableIrqs),
            ..self
        }
    }

    /// The context after its interrupt state was restored from `word`.
    pub open spec fn local_irq_restore(self, word: usize) -> ContextView {
        ContextView {
            irqs_enabled: word_enables(word),
            calls: self.calls.push(Primitive::RestoreIrqs(word)),
            ..self
        }
    }

    /// The context after one more call of the disabling hook.
    pub open spec fn disable_preempt(self) -> ContextView {
        ContextView {
            preempt_depth: self.preempt_depth + 1,
            calls: self.calls.push(Primitive::DisablePreempt),
            ..self
        }
    }

    /// The context after one call of the disabling hook was undone.
    pub open spec fn enable_preempt(self) -> ContextView {
        ContextView {
            preempt_depth: (self.preempt_depth - 1) as nat,
            calls: self.calls.push(Primitive::EnablePreempt),
            ..self
        }
    }
}

/// One execution context: its build, its suppression flags, and the
/// primitives called on it.
pub struct Context {
    privileged: bool,
    preemptive: bool,
    irqs_enabled: bool,
    preempt_depth: usize,
    calls: Vec<Primitive>,
}

impl View for Context {
    type V = ContextView;

    closed spec fn view(&self) -> ContextView {
        ContextView {
            privileged: self.privileged,
            preemptive: self.preemptive,
            irqs_enabled: self.irqs_enabled,
            preempt_depth: self.preempt_depth as nat,
            calls: self.calls@,
        }
    }
}

impl Context {
    /// A context with the given build, found with the given flags, with no
    /// call made yet.
    pub fn new(
        privileged: bool,
        preemptive: bool,
        irqs_enabled: bool,
        preempt_depth: usize,
    ) -> (cx: Context)
        ensures
            cx@ == (ContextView {
                privileged,
                preemptive,
                irqs_enabled,
                preempt_depth: preempt_depth as nat,
                calls: Seq::empty(),
            }),
    {
        Context { privileged, preemptive, irqs_enabled, preempt_depth, calls: Vec::new() }
    }

    /// A context on a privileged, bare-metal target, with interrupts enabled,
    /// preemption possible and no call made yet.
    pub fn bare_metal(preemptive: bool) -> (cx: Context)
        ensures
            cx@ == (ContextView {
                privileged: true,
                preemptive,
                irqs_enabled: true,
                preempt_depth: 0,
                calls: Seq::empty(),
            }),
    {
        Context {
            privileged: true,
            preemptive,
            irqs_enabled: true,
            preempt_depth: 0,
            calls: Vec::new(),
        }
    }

    /// A context on a hosted target, where nothing can be suppressed:
    /// interrupts enabled, preemption possible, and no call made yet.
    pub fn hosted(preemptive: bool) -> (cx: Context)
        ensures
            cx@ == (ContextView {
                privileged: false,
                preemptive,
                irqs_enabled: true,
                preempt_depth: 0,
                calls: Seq::empty(),
            }),
    {
        Context {
            privileged: false,
            preemptive,
            irqs_enabled: true,
            preempt_depth: 0,
            calls: Vec::new(),
        }
    }

    /// Whether this context is on a privileged, bare-metal target.
    pub fn privileged(&self) -> (b: bool)
        ensures
            b == self@.privileged,
    {
        self.privileged
    }

    /// Whether the kernel's preemption hooks exist in this context.
    pub fn has_preempt_hooks(&self) -> (b: bool)
        ensures
            b == self@.has_preempt_hooks(),
    {
        self.privileged && self.preemptive
    }

    /// Whether local interrupts are enabled.
    pub fn irqs_enabled(&self) -> (b: bool)
        ensures
            b == self@.irqs_enabled,
    {
        self.irqs_enabled
    }

    /// How many calls of the disabling hook are still to be undone.
    pub fn preempt_depth(&self) -> (depth: usize)
        ensures
            depth == self@.preempt_depth,
    {
        self.preempt_depth
    }

    /// The primitives called so far, oldest first.
    pub fn calls(&self) -> (calls: &Vec<Primitive>)
        ensures
            calls@ == self@.calls,
    {
        &self.calls
    }

    /// Saves whether local interrupts are enabled and disables them. The
    /// word returned is what [`Context::local_irq_restore`] takes.
    pub fn local_irq_save_and_disable(&mut self) -> (word: usize)
        requires
            old(self)@.privileged,
        ensures
            word == old(self)@.irq_word(),
            final(self)@ == old(self)@.local_irq_save_and_disable(),
    {
        let word: usize = if self.irqs_enabled {
            1
        } else {
            0
        };
        self.irqs_enabled = false;
        self.calls.push(Primitive::SaveAndDisableIrqs);
        word
    }

    /// Restores the interrupt state that `word` stands for: interrupts are
    /// enabled afterwards if and only if the word is not zero.
    pub fn local_irq_restore(&mut self, word: usize)
        requires
            old(self)@.privileged,
        ensures
            final(self)@ == old(self)@.local_irq_restore(word),
    {
        self.irqs_enabled = word != 0;
        self.calls.push(Primitive::RestoreIrqs(word));
    }

    /// The kernel's hook that forbids preemption until
    /// [`Context::enable_preempt`] undoes it.
    pub fn disable_preempt(&mut self)
        requires
            old(self)@.has_preempt_hooks(),
            old(self)@.preempt_depth < usize::MAX,
        ensures
            final(self)@ == old(self)@.disable_preempt(),
    {
        self.preempt_depth = self.preempt_depth + 1;
        self.calls.push(Primitive::DisablePreempt);
    }

    /// The kernel's hook that undoes one call of
    /// [`Context::disable_preempt`].
    pub fn enable_preempt(&mut self)
        requires
            old(self)@.has_preempt_hooks(),
            old(self)@.preempt_depth > 0,
        ensures
            final(self)@ == old(self)@.enable_preempt(),
    {
        self.preempt_depth = self.preempt_depth - 1;
        self.calls.push(Primitive::EnablePreempt);
    }
}

} // verus!
