//! An observer over a single value accessible by direct reference.

use vstd::prelude::*;
use crate::ObserverError;
use crate::hashing::StableHash;
use crate::ownership::OwnedValue;

verus! {

/// A passive observer exposing a single value to the execution pipeline.
///
/// The value is usually memory the instrumented target writes into while
/// it runs; the observer holds a reference to it and merely reads. After
/// `set`, the observer instead holds an owned copy, severed from the
/// original memory — the state machine has two states, borrowed and owned,
/// with `set` as the only transition, and no way back to borrowed.
pub struct ValueObserver<'a, T> {
    /// The name of this observer.
    name: String,
    /// The observed value.
    pub value: OwnedValue<'a, T>,
}

impl<'a, T> ValueObserver<'a, T> {
    /// The stable identifier, used for lookup in the observer collection
    /// of a run.
    pub closed spec fn spec_name(self) -> Seq<char> {
        self.name@
    }

    /// The current content.
    pub closed spec fn spec_value(self) -> T {
        self.value.spec_value()
    }

    /// Whether the observer owns its content rather than borrowing it.
    pub closed spec fn spec_is_owned(self) -> bool {
        self.value.spec_is_owned()
    }

    /// Creates a borrowing observer with the given name, pointing at
    /// caller-owned memory the instrumentation will write into. The name
    /// is a stable identifier usable as a map key; no uniqueness check is
    /// performed here — uniqueness across the observer collection is the
    /// caller's responsibility.
    pub fn new(name: &'static str, value: &'a T) -> (r: Self)
        ensures
            r.spec_name() == name@,
            r.spec_value() == *value,
            !r.spec_is_owned(),
    {
        ValueObserver { name: name.to_string(), value: OwnedValue::Ref(value) }
    }

    /// Creates an observer that owns its value outright. This is the state
    /// an observer rebuilt from a transported snapshot is in: on the
    /// receiving side there is no external memory to borrow, so only the
    /// name and the value are needed to reconstruct it.
    pub fn with_value(name: String, value: T) -> (r: Self)
        ensures
            r.spec_name() == name@,
            r.spec_value() == value,
            r.spec_is_owned(),
    {
        ValueObserver { name, value: OwnedValue::Owned(Box::new(value)) }
    }

    /// A read-only view of the current value, whichever ownership mode is
    /// active. Always succeeds: the cell is always populated.
    pub fn get_ref(&self) -> (r: &T)
        ensures
            *r == self.spec_value(),
    {
        self.value.as_ref()
    }

    /// Replaces the content with an owned copy of `new_value`. Any prior
    /// external aliasing is severed: subsequent reads see only the owned
    /// copy, never future writes to the original external location. This
    /// is a one-way transition; the observer never returns to borrowing.
    pub fn set(&mut self, new_value: T)
        ensures
            final(self).spec_name() == old(self).spec_name(),
            final(self).spec_value() == new_value,
            final(self).spec_is_owned(),
    {
        self.value = OwnedValue::Owned(Box::new(new_value));
    }

    /// Clone or move the current value out of this observer: clones if
    /// borrowed, moves if owned. Terminal operation on this instance.
    pub fn take(self) -> (r: T) where T: Clone
        ensures
            self.spec_is_owned() ==> r == self.spec_value(),
            !self.spec_is_owned() ==> cloned::<T>(self.spec_value(), r),
    {
        match self.value {
            OwnedValue::Ref(r) => r.clone(),
            OwnedValue::Owned(v) => *v,
        }
    }

    /// Lifecycle hook invoked by the execution engine before each run of
    /// the target. Intentionally a no-op that always succeeds: this
    /// observer family does not reset the observed value between runs, so
    /// zeroing the underlying storage — if cross-run contamination must be
    /// avoided — is the caller's responsibility. This is a deliberate
    /// policy (downstream logic may depend on cross-run accumulation), not
    /// an oversight.
    pub fn pre_exec<S, I>(&mut self, state: &mut S, input: &I) -> (r: Result<(), ObserverError>)
        ensures
            r is Ok,
            *final(self) == *old(self),
            *final(state) == *old(state),
    {
        Ok(())
    }

    /// The stable identifier of this observer.
    pub fn name(&self) -> (r: &str)
        ensures
            r@ == self.spec_name(),
    {
        self.name.as_str()
    }
}

impl<'a, T: StableHash> ValueObserver<'a, T> {
    /// The deterministic content hash of the current value.
    pub open spec fn spec_hash(self) -> u64 {
        self.spec_value().stable_hash_spec()
    }

    /// Computes a deterministic fixed-seed hash of the current value, for
    /// use as a deduplication or novelty key. Always present for hashable
    /// content: the optionality exists only because the capability is
    /// conditional on the content being hashable, not because the
    /// computation can fail.
    pub fn hash(&self) -> (r: Option<u64>)
        ensures
            r == Some(self.spec_hash()),
    {
        Some(self.get_ref().stable_hash())
    }
}

/// The content of an observer after a sequence of `set` calls, starting
/// from content `c0`: each call replaces the whole content with its
/// argument, exactly as `set`'s contract states.
pub open spec fn content_after_sets<T>(c0: T, vs: Seq<T>) -> T
    decreases vs.len(),
{
    if vs.len() == 0 {
        c0
    } else {
        content_after_sets(vs[0], vs.drop_first())
    }
}

/// Law: for any content type and any non-empty sequence of `set` calls,
/// a read after the last call returns exactly the last value set —
/// `set` replaces the whole content, and `get_ref` returns the content.
pub proof fn lemma_last_set_wins<T>(c0: T, vs: Seq<T>)
    requires
        vs.len() > 0,
    ensures
        content_after_sets(c0, vs) == vs.last(),
    decreases vs.len(),
{
    if vs.len() == 1 {
        assert(vs.drop_first().len() == 0);
        assert(content_after_sets(vs[0], vs.drop_first()) == vs[0]);
    } else {
        lemma_last_set_wins(vs[0], vs.drop_first());
        assert(vs.drop_first().last() == vs.last());
    }
}

/// Law: `take` on a freshly constructed borrowing observer returns a value
/// equal to the originally referenced one, for any content type whose
/// `clone` returns its input (which holds of every well-behaved `Clone`,
/// and provably of `Copy` content).
pub proof fn lemma_take_of_fresh<'a, T: Clone>(
    name: &'static str,
    value: &'a T,
    o: ValueObserver<'a, T>,
    r: T,
)
    requires
        forall|a: T, b: T| cloned::<T>(a, b) ==> a == b,
        call_ensures(ValueObserver::<'a, T>::new, (name, value), o),
        call_ensures(ValueObserver::<'a, T>::take, (o,), r),
    ensures
        r == *value,
{
}

/// Law: `take` after `set(v)` returns `v` — `set` leaves the observer
/// owning exactly `v`, and `take` moves owned content out unchanged.
pub proof fn lemma_take_after_set<'a, T: Clone>(o: ValueObserver<'a, T>, v: T, r: T)
    requires
        o.spec_is_owned(),
        o.spec_value() == v,
        call_ensures(ValueObserver::<'a, T>::take, (o,), r),
    ensures
        r == v,
{
}

/// Law: the hash is stable across repeated calls with no intervening
/// mutation — any two results of `hash` on the same observer are equal,
/// with no reliance on process-random seeding or hidden state.
pub proof fn lemma_hash_stable<'a, T: StableHash>(
    o: &ValueObserver<'a, T>,
    r1: Option<u64>,
    r2: Option<u64>,
)
    requires
        call_ensures(ValueObserver::<'a, T>::hash, (o,), r1),
        call_ensures(ValueObserver::<'a, T>::hash, (o,), r2),
    ensures
        r1 == r2,
{
}

/// Law: the hash is a pure function of content — two observers over the
/// same content type holding equal values hash equally; object identity
/// and ownership mode play no part.
pub proof fn lemma_hash_of_content<'a, 'b, T: StableHash>(
    a: ValueObserver<'a, T>,
    b: ValueObserver<'b, T>,
)
    requires
        a.spec_value() == b.spec_value(),
    ensures
        a.spec_hash() == b.spec_hash(),
{
}

} // verus!
