//! What holds of the guards, proved from their definitions.
//!
//! The laws speak of contexts by their views and of guards by their kinds,
//! through the functions that the contracts of the guards use.
use vstd::prelude::*;
use crate::context::{ContextView, Primitive};
use crate::guard::GuardKind;

verus! {

/// One operation of a guard on a context.
pub enum GuardOp {
    /// Acquiring a guard of the given kind.
    Acquire(GuardKind),
    /// Releasing a guard of the given kind that holds the given word.
    Release(GuardKind, usize),
}

impl GuardOp {
    /// The kind of guard that the operation belongs to.
    pub open spec fn kind(self) -> GuardKind {
        match self {
            GuardOp::Acquire(kind) => kind,
            GuardOp::Release(kind, _) => kind,
        }
    }

    /// The context after the operation was made in `cx`.
    pub open spec fn apply(self, cx: ContextView) -> ContextView {
        match self {
            GuardOp::Acquire(kind) => kind.after_acquire(cx),
            GuardOp::Release(kind, word) => kind.after_release(cx, word),
        }
    }
}

/// The context after the operations `ops` were made in `cx`, first to last.
pub open spec fn run(ops: Seq<GuardOp>, cx: ContextView) -> ContextView
    decreases ops.len(),
{
    if ops.len() == 0 {
        cx
    } else {
        ops.last().apply(run(ops.drop_last(), cx))
    }
}

/// The context after guards of the given kinds were acquired in `cx`, first
/// to last, and the words that they hold, in the same order.
pub open spec fn acquire_all(kinds: Seq<GuardKind>, cx: ContextView) -> (ContextView, Seq<usize>)
    decreases kinds.len(),
{
    if kinds.len() == 0 {
        (cx, Seq::empty())
    } else {
        let (outer, words) = acquire_all(kinds.drop_last(), cx);
        (kinds.last().after_acquire(outer), words.push(kinds.last().saved_word(outer)))
    }
}

/// Whether guards of the given kinds can be acquired in `cx`, first to last.
pub open spec fn can_acquire_all(kinds: Seq<GuardKind>, cx: ContextView) -> bool
    decreases kinds.len(),
{
    if kinds.len() == 0 {
        true
    } else {
        &&& can_acquire_all(kinds.drop_last(), cx)
        &&& kinds.last().can_acquire(acquire_all(kinds.drop_last(), cx).0)
    }
}

/// The context after guards of the given kinds, holding the given words,
/// were released in `cx`, last to first.
pub open spec fn release_all(kinds: Seq<GuardKind>, words: Seq<usize>, cx: ContextView) -> ContextView
    decreases kinds.len(),
{
    if kinds.len() == 0 {
        cx
    } else {
        release_all(
            kinds.drop_last(),
            words.drop_last(),
            kinds.last().after_release(cx, words.last()),
        )
    }
}

/// Whether guards of the given kinds, holding the given words, can be
/// released in `cx`, last to first.
pub open spec fn can_release_all(kinds: Seq<GuardKind>, words: Seq<usize>, cx: ContextView) -> bool
    decreases kinds.len(),
{
    if kinds.len() == 0 {
        true
    } else {
        &&& kinds.last().can_release(cx)
        &&& can_release_all(
            kinds.drop_last(),
            words.drop_last(),
            kinds.last().after_release(cx, words.last()),
        )
    }
}

/// Acquiring a guard of any kind and releasing it at once, with the word it
/// saved, leaves the suppression flags and the build as they were. The
/// release is always possible.
pub proof fn round_trip_restores_flags(kind: GuardKind, cx: ContextView)
    requires
        kind.can_acquire(cx),
    ensures
        kind.can_release(kind.after_acquire(cx)),
        kind.after_release(kind.after_acquire(cx), kind.saved_word(cx)).flags() == cx.flags(),
        kind.after_release(kind.after_acquire(cx), kind.saved_word(cx)).agrees_with(cx),
{
}

/// While a guard is held, what it touches is suppressed: interrupts are
/// disabled, preemption is not possible.
pub proof fn suppressed_while_held(kind: GuardKind, cx: ContextView)
    requires
        kind.can_acquire(cx),
    ensures
        kind.touches_irqs(cx) ==> !kind.after_acquire(cx).irqs_enabled,
        kind.touches_preempt(cx) ==> !kind.after_acquire(cx).preempt_enabled(),
{
}

/// Releasing guards, last to first, ends in agreeing contexts when it starts
/// in agreeing contexts, and is possible in the one when it is in the other.
proof fn release_all_respects_agreement(
    kinds: Seq<GuardKind>,
    words: Seq<usize>,
    a: ContextView,
    b: ContextView,
)
    requires
        a.agrees_with(b),
    ensures
        can_release_all(kinds, words, a) == can_release_all(kinds, words, b),
        release_all(kinds, words, a).agrees_with(release_all(kinds, words, b)),
    decreases kinds.len(),
{
    if kinds.len() > 0 {
        release_all_respects_agreement(
            kinds.drop_last(),
            words.drop_last(),
            kinds.last().after_release(a, words.last()),
            kinds.last().after_release(b, words.last()),
        );
    }
}

/// Acquiring any number of guards of any kinds, one inside the other, and
/// releasing them in reverse order, each with the word it saved, leaves the
/// suppression flags as they were. Each release is possible.
pub proof fn nested_round_trip_restores_flags(kinds: Seq<GuardKind>, cx: ContextView)
    requires
        can_acquire_all(kinds, cx),
    ensures
        can_release_all(kinds, acquire_all(kinds, cx).1, acquire_all(kinds, cx).0),
        release_all(kinds, acquire_all(kinds, cx).1, acquire_all(kinds, cx).0).flags()
            == cx.flags(),
        release_all(kinds, acquire_all(kinds, cx).1, acquire_all(kinds, cx).0).agrees_with(cx),
    decreases kinds.len(),
{
    if kinds.len() > 0 {
        let inner = kinds.last();
        let (outer, words) = acquire_all(kinds.drop_last(), cx);
        let word = inner.saved_word(outer);
        let left = inner.after_release(inner.after_acquire(outer), word);
        assert(words.push(word).drop_last() == words);
        round_trip_restores_flags(inner, outer);
        nested_round_trip_restores_flags(kinds.drop_last(), cx);
        release_all_respects_agreement(kinds.drop_last(), words, left, outer);
    }
}

/// No sequence of operations of the no-op guard changes anything in a
/// context.
pub proof fn noop_never_alters(ops: Seq<GuardOp>, cx: ContextView)
    requires
        forall|i: int| 0 <= i < ops.len() ==> (#[trigger] ops[i]).kind() == GuardKind::NoOp,
    ensures
        run(ops, cx) == cx,
    decreases ops.len(),
{
    if ops.len() > 0 {
        noop_never_alters(ops.drop_last(), cx);
    }
}

/// On a hosted target no sequence of operations of any guards changes
/// anything in a context.
pub proof fn hosted_never_alters(ops: Seq<GuardOp>, cx: ContextView)
    requires
        !cx.privileged,
    ensures
        run(ops, cx) == cx,
    decreases ops.len(),
{
    if ops.len() > 0 {
        hosted_never_alters(ops.drop_last(), cx);
    }
}

/// Where interrupts are disabled before a guard that suppresses interrupts
/// is acquired, they are disabled while it is held and stay disabled when
/// it is released.
pub proof fn irqs_stay_disabled(kind: GuardKind, cx: ContextView)
    requires
        kind.masks_irqs(),
        kind.can_acquire(cx),
        !cx.irqs_enabled,
    ensures
        !kind.after_acquire(cx).irqs_enabled,
        !kind.after_release(kind.after_acquire(cx), kind.saved_word(cx)).irqs_enabled,
{
}

/// Where the preemption hooks exist, the guard that suppresses both
/// disables preemption and then interrupts, and restores interrupts and
/// then enables preemption: it makes these calls and no others.
pub proof fn preemption_brackets_interrupts(cx: ContextView, word: usize)
    requires
        cx.has_preempt_hooks(),
    ensures
        GuardKind::NoPreemptIrqSave.after_acquire(cx).calls == cx.calls.push(
            Primitive::DisablePreempt,
        ).push(Primitive::SaveAndDisableIrqs),
        GuardKind::NoPreemptIrqSave.after_release(cx, word).calls == cx.calls.push(
            Primitive::RestoreIrqs(word),
        ).push(Primitive::EnablePreempt),
{
}

} // verus!
