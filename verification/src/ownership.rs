//! The borrowed-or-owned cell underlying both observer types.

use vstd::prelude::*;

verus! {

/// A value that is either borrowed from memory the caller maintains, or
/// owned directly by the holder (for instance after the holder was rebuilt
/// from a transported snapshot and no external memory exists to borrow).
///
/// The two variants are the single point that absorbs the borrowed/owned
/// duality: users read through [`OwnedValue::as_ref`] without caring which
/// variant is active. The borrowed variant cannot outlive the referenced
/// memory, and the owned variant lives exactly as long as the cell.
pub enum OwnedValue<'a, T> {
    /// A reference to memory owned by the caller.
    Ref(&'a T),
    /// A heap-allocated value owned by this cell.
    Owned(Box<T>),
}

impl<'a, T> OwnedValue<'a, T> {
    /// The current content, whichever variant is active.
    pub open spec fn spec_value(self) -> T {
        match self {
            OwnedValue::Ref(r) => *r,
            OwnedValue::Owned(b) => *b,
        }
    }

    /// Whether the owned variant is active.
    pub open spec fn spec_is_owned(self) -> bool {
        self is Owned
    }

    /// A read-only view of the content, regardless of variant.
    pub fn as_ref(&self) -> (r: &T)
        ensures
            *r == self.spec_value(),
    {
        match self {
            OwnedValue::Ref(r) => r,
            OwnedValue::Owned(b) => &**b,
        }
    }

    /// Whether this cell owns its content rather than borrowing it.
    pub fn is_owned(&self) -> (r: bool)
        ensures
            r == self.spec_is_owned(),
    {
        match self {
            OwnedValue::Ref(_) => false,
            OwnedValue::Owned(_) => true,
        }
    }
}

} // verus!
