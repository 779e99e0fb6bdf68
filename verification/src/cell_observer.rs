//! An observer over a value wrapped in an interior-mutation cell.
//!
//! The observed value lives inside a `core::cell::RefCell`, so the
//! instrumented target can mutate it through a shared alias while the
//! observer holds only a shared reference to the cell. The cell's content
//! therefore changes underneath a value this crate's reasoning treats as
//! immutable; no contract here can name the content, and every access goes
//! through a trusted wrapper that states only what holds of every outcome.
//! The cell's runtime borrow flag enforces the single-writer-or-
//! multiple-reader discipline: a caller that holds a read view across a
//! mutation of the same cell fails fast (the borrow aborts) rather than
//! silently corrupting state.

use vstd::prelude::*;
use core::cell::RefCell;
use crate::ObserverError;
use crate::ownership::OwnedValue;

verus! {

/// Declares `core::cell::RefCell`, the single-owner interior-mutation
/// cell, as an opaque type: its content is mutated through shared aliases
/// and so is never a function of the cell value itself.
#[verifier::external_type_specification]
#[verifier::external_body]
#[verifier::reject_recursive_types(T)]
pub struct ExRefCell<T: ?Sized>(RefCell<T>);

/// Declares `core::cell::Ref`, the scoped read view a borrow of a
/// `RefCell` yields; releasing it (dropping it) ends the read borrow.
#[verifier::external_type_specification]
#[verifier::external_body]
#[verifier::reject_recursive_types(T)]
pub struct ExRef<'b, T: ?Sized>(core::cell::Ref<'b, T>);

/// Relies on `RefCell::new`: wraps a value in a fresh interior-mutation
/// cell. Never fails.
#[verifier::external_body]
fn cell_new<T>(value: T) -> (r: RefCell<T>) {
    RefCell::new(value)
}

/// Relies on `RefCell::borrow`: a scoped, read-locked view of the current
/// content. Aborts if a mutable borrow of the same cell is live — the
/// fail-fast answer to a broken read/mutate discipline.
#[verifier::external_body]
fn cell_borrow<'b, T>(cell: &'b RefCell<T>) -> (r: core::cell::Ref<'b, T>) {
    cell.borrow()
}

/// Relies on `RefCell::borrow` and `Clone::clone`: reads the current
/// content of the cell out as a clone. Aborts if a mutable borrow of the
/// same cell is live.
#[verifier::external_body]
fn cell_read<T: Clone>(cell: &RefCell<T>) -> (r: T) {
    cell.borrow().clone()
}

/// Relies on `RefCell::replace`: replaces the content in place through the
/// cell, returning the previous content. Aborts if any borrow of the same
/// cell is live.
#[verifier::external_body]
fn cell_replace<T>(cell: &RefCell<T>, value: T) -> (r: T) {
    cell.replace(value)
}

/// Relies on `RefCell::borrow` and `ahash::RandomState::with_seeds(1, 2,
/// 3, 4)`: hashes the current content with the same fixed-seed hasher the
/// direct observer uses, so equal content in two cells hashes equally at
/// the moment of the call. Aborts if a mutable borrow of the same cell is
/// live.
#[verifier::external_body]
fn cell_hash<T: core::hash::Hash>(cell: &RefCell<T>) -> (r: u64) {
    let mut s = core::hash::BuildHasher::build_hasher(&ahash::RandomState::with_seeds(1, 2, 3, 4));
    core::hash::Hash::hash(&*cell.borrow(), &mut s);
    core::hash::Hasher::finish(&s)
}

/// A passive observer exposing a single interior-mutable value to the
/// execution pipeline.
///
/// Identical in shape to the direct observer, except that the observed
/// element is a `RefCell` holding the value: `get_ref` yields a scoped
/// read view through the cell, and `set` mutates in place through the
/// existing cell rather than replacing it — so, unlike the direct
/// observer's `set`, it does not sever aliasing, and the borrowed/owned
/// duality of the cell itself is preserved.
#[verifier::reject_recursive_types(T)]
pub struct RefCellValueObserver<'a, T> {
    /// The name of this observer.
    name: String,
    /// The observed cell.
    pub value: OwnedValue<'a, RefCell<T>>,
}

impl<'a, T> RefCellValueObserver<'a, T> {
    /// The stable identifier, used for lookup in the observer collection
    /// of a run.
    pub closed spec fn spec_name(self) -> Seq<char> {
        self.name@
    }

    /// Whether the observer owns its cell rather than borrowing it.
    pub closed spec fn spec_is_owned(self) -> bool {
        self.value.spec_is_owned()
    }

    /// Creates a borrowing observer with the given name; it borrows the
    /// cell itself, not the value inside it. No uniqueness check is
    /// performed on the name — uniqueness across the observer collection
    /// is the caller's responsibility.
    pub fn new(name: &'static str, value: &'a RefCell<T>) -> (r: Self)
        ensures
            r.spec_name() == name@,
            !r.spec_is_owned(),
    {
        RefCellValueObserver { name: name.to_string(), value: OwnedValue::Ref(value) }
    }

    /// Creates an observer that owns a fresh cell around the given value.
    /// This is the state an observer rebuilt from a transported snapshot
    /// is in: on the receiving side there is no external cell to borrow,
    /// so only the name and the value are needed to reconstruct it.
    pub fn with_value(name: String, value: T) -> (r: Self)
        ensures
            r.spec_name() == name@,
            r.spec_is_owned(),
    {
        RefCellValueObserver { name, value: OwnedValue::Owned(Box::new(cell_new(value))) }
    }

    /// A scoped, read-locked view of the current value, obtained by
    /// borrowing through the cell. The caller must not hold this view
    /// across a call that mutably borrows the same cell; breaking that
    /// discipline fails fast at borrow time.
    pub fn get_ref<'b>(&'b self) -> (r: core::cell::Ref<'a, T>) where 'b: 'a {
        cell_borrow(self.value.as_ref())
    }

    /// Replaces the value in place, through the existing cell. The cell
    /// itself — and with it the borrowed/owned state of this observer —
    /// is untouched, so external aliases of a borrowed cell observe the
    /// new value.
    pub fn set(&mut self, new_value: T)
        ensures
            *final(self) == *old(self),
    {
        cell_replace(self.value.as_ref(), new_value);
    }

    /// Clone or move the current value out of this observer: reads
    /// through the cell if borrowed, out of the owned cell otherwise.
    /// Terminal operation on this instance.
    pub fn take(self) -> (r: T) where T: Clone {
        match self.value {
            OwnedValue::Ref(r) => cell_read(r),
            OwnedValue::Owned(v) => cell_read(&*v),
        }
    }

    /// Lifecycle hook invoked by the execution engine before each run of
    /// the target. Intentionally a no-op that always succeeds: this
    /// observer family does not reset the observed value between runs, so
    /// zeroing the underlying storage — if cross-run contamination must be
    /// avoided — is the caller's responsibility. This is a deliberate
    /// policy (downstream logic may depend on cross-run accumulation), not
    /// an oversight.
    pub fn pre_exec<S, I>(&mut self, state: &mut S, input: &I) -> (r: Result<(), ObserverError>)
        ensures
            r is Ok,
            *final(self) == *old(self),
            *final(state) == *old(state),
    {
        Ok(())
    }

    /// The stable identifier of this observer.
    pub fn name(&self) -> (r: &str)
        ensures
            r@ == self.spec_name(),
    {
        self.name.as_str()
    }
}

impl<'a, T: core::hash::Hash> RefCellValueObserver<'a, T> {
    /// Computes a deterministic fixed-seed hash of the value currently in
    /// the cell, reading through the cell; the same algorithm and seeds as
    /// the direct observer's hash. Always present: the optionality exists
    /// only because the capability is conditional on the content being
    /// hashable, not because the computation can fail.
    pub fn hash(&self) -> (r: Option<u64>)
        ensures
            r is Some,
    {
        Some(cell_hash(self.value.as_ref()))
    }
}

} // verus!
