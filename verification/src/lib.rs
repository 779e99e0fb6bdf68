//! Value observers: passive windows onto a single piece of instrumented
//! program state, exposed to a feedback-driven execution pipeline.
//!
//! Two sibling observer types share one design: [`observer::ValueObserver`]
//! watches a plain value through a direct reference, and
//! [`cell_observer::RefCellValueObserver`] watches a value wrapped in a
//! `RefCell` so the target can mutate it through aliasing. Both delegate
//! storage to [`ownership::OwnedValue`], the borrowed-or-owned cell that
//! absorbs the two ownership regimes.

use vstd::prelude::*;

pub mod cell_observer;
pub mod hashing;
pub mod observer;
pub mod ownership;

verus! {

/// Error type of the observer lifecycle hooks.
///
/// The hooks of this crate never return it: `pre_exec` is deliberately a
/// no-op that always succeeds. The type exists so that the hooks have the
/// `Result` shape the execution engine expects.
pub enum ObserverError {
    /// A caller broke the single-writer-or-multiple-reader discipline of an
    /// interior-mutable observation cell.
    BorrowConflict,
}

} // verus!
