//! Guards that open a critical section with local interrupts or preemption
//! suppressed, and that put the earlier state back when the section ends.
//!
//! A guard acts on a [`Context`], which stands for the execution context
//! that the critical section runs in. Creating a guard suppresses what the
//! guard is for; dropping it restores what was there before. Guards nest,
//! and are dropped in the reverse order of their creation.
//!
//! Available guards:
//!
//! - [`NoOp`]: does nothing around the critical section.
//! - [`IrqSave`]: disables local interrupts around the critical section.
//! - [`NoPreempt`]: forbids preemption around the critical section.
//! - [`NoPreemptIrqSave`]: forbids preemption and disables local interrupts
//!   around the critical section.
//!
//! On a hosted target nothing can be suppressed and every guard does
//! nothing. Preemption is forbidden only in a preemptive system, where the
//! kernel supplies the hooks for it.
pub mod context;
pub mod guard;
pub mod laws;

pub use context::{Context, ContextView, Flags, Primitive};
pub use guard::{BaseGuard, GuardKind, IrqSave, NoOp, NoPreempt, NoPreemptIrqSave, Nothing};
