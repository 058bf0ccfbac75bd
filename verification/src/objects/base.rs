use super::_any::EmAny;
use super::sealed::seal;
use super::sealed::unseal;
use super::sealed::SealedPayload;
use std::ops::Deref;
use std::sync::atomic::AtomicUsize;
use std::sync::atomic::Ordering;
use std::sync::Arc;
use vstd::prelude::*;

verus! {

/// Where a handle keeps its payload.
#[derive(Debug)]
enum Slot<T> {
    /// The payload, under its own type.
    Typed(Box<T>),
    /// The payload with its type forgotten, beside the value of the declared
    /// type that a borrow of such a handle reads.
    Sealed { shown: T, payload: SealedPayload },
}

/// An owning handle to one heap payload.
///
/// The handle is the only owner of its payload. Reads are lent out as
/// [`ReferencedObject`] leases, each counted on the handle's counter for as
/// long as it lives. The payload is never changed through the handle: a
/// changed value is a new handle, made by [`EmObject::em_clone`].
///
/// A handle declared as `EmObject<EmAny>` by [`EmObject::into_any`] or
/// [`EmObject::new_any`] is *erased*: it owns a payload whose type it no
/// longer names, and lends out the marker in its place.
#[derive(Debug)]
pub struct EmObject<T> {
    slot: Slot<T>,
    refs: Arc<AtomicUsize>,
}

/// The refusal to destroy a handle that is still lent out.
///
/// It holds the handle, which has not been destroyed. Letting a refusal go
/// out of scope frees the payload without any check, so a caller fails on
/// it instead.
#[derive(Debug)]
pub struct StillReferenced<T> {
    /// The handle, as it was handed in.
    pub object: EmObject<T>,
    /// The number of leases that were counted when destruction was asked for.
    pub outstanding: usize,
}

/// A scoped, read-only lease on a handle's payload.
///
/// It is counted on the handle's counter from the moment it is made until
/// it goes out of scope.
#[derive(Debug)]
pub struct ReferencedObject<'a, T> {
    counter: Arc<AtomicUsize>,
    holder: &'a T,
}

/// Calls `Arc::clone`, which makes another pointer to the same allocation:
/// the result is the counter that was passed in.
#[verifier::external_body]
fn share(counter: &Arc<AtomicUsize>) -> (shared: Arc<AtomicUsize>)
    ensures
        shared == *counter,
{
    Arc::clone(counter)
}

/// Calls `AtomicUsize::fetch_sub` with the amount and the ordering that it
/// is given. The contract claims only that the call returns normally: it
/// wraps around on overflow and does not unwind.
#[verifier::external_body]
fn give_back(counter: &Arc<AtomicUsize>, amount: usize, order: Ordering)
    opens_invariants none
    no_unwind
{
    counter.fetch_sub(amount, order);
}

/// `counter` was made holding `count`: it is what `AtomicUsize::new` gives
/// for `count`.
pub closed spec fn counter_made_with(counter: Arc<AtomicUsize>, count: usize) -> bool {
    call_ensures(AtomicUsize::new, (count,), *counter)
}

/// One lease was counted on `counter`: `AtomicUsize::fetch_add` was handed
/// this counter, the amount 1 and sequentially consistent ordering.
pub closed spec fn counted_on(counter: Arc<AtomicUsize>) -> bool {
    exists|before: usize| #[trigger]
        call_ensures(AtomicUsize::fetch_add, (&*counter, 1usize, Ordering::SeqCst), before)
}

/// `count` is what reading `counter` gave: what `AtomicUsize::load` returned
/// for this counter under sequentially consistent ordering.
pub closed spec fn read_on(counter: Arc<AtomicUsize>, count: usize) -> bool {
    call_ensures(AtomicUsize::load, (&*counter, Ordering::SeqCst), count)
}

/// One lease was given back on `counter`: `AtomicUsize::fetch_sub` was
/// handed this counter, the amount 1 and sequentially consistent ordering.
pub closed spec fn given_back_on(counter: Arc<AtomicUsize>) -> bool {
    call_ensures(give_back, (&counter, 1usize, Ordering::SeqCst), ())
}

/// A handle whose counter reads `outstanding` must not be destroyed: a
/// lease on it is still counted. The count alone decides, whatever the
/// payload and whether or not the handle is erased.
pub open spec fn spec_destruction_blocked(outstanding: usize) -> bool {
    outstanding > 0
}

/// Whether a handle whose counter reads `outstanding` must be kept alive.
///
/// A handle may be destroyed only while no lease on it is counted, whatever
/// the number of leases that are.
pub fn destruction_blocked(outstanding: usize) -> (blocked: bool)
    ensures
        blocked == spec_destruction_blocked(outstanding),
{
    outstanding > 0
}

impl<T> View for EmObject<T> {
    type V = T;

    /// The value that a borrow of the handle reads: the payload, or the
    /// stand-in of the declared type where the handle is erased.
    closed spec fn view(&self) -> T {
        match self.slot {
            Slot::Typed(boxed) => *boxed,
            Slot::Sealed { shown, payload } => shown,
        }
    }
}

impl<T> EmObject<T> {
    /// Whether the handle has forgotten the type of its payload.
    pub closed spec fn is_erased(&self) -> bool {
        self.slot is Sealed
    }

    /// The payload of an erased handle.
    pub closed spec fn sealed(&self) -> SealedPayload
        recommends
            self.is_erased(),
    {
        self.slot->payload
    }

    /// The counter on which the handle's leases are counted.
    pub closed spec fn counter(&self) -> Arc<AtomicUsize> {
        self.refs
    }

    /// The handle's counter was made holding `count`.
    pub open spec fn made_with(&self, count: usize) -> bool {
        counter_made_with(self.counter(), count)
    }

    /// One lease was counted on the handle's counter.
    pub open spec fn lease_counted(&self) -> bool {
        counted_on(self.counter())
    }

    /// `count` is what reading the handle's counter gave.
    pub open spec fn read_as(&self, count: usize) -> bool {
        read_on(self.counter(), count)
    }

    /// The handle owns `value` under its own type.
    pub open spec fn made_from(&self, value: T) -> bool {
        &&& self@ == value
        &&& !self.is_erased()
    }

    /// The handle is erased and its payload is `value`, of the type `K`.
    pub open spec fn carries<K: Send + Sync + 'static>(&self, value: K) -> bool {
        &&& self.is_erased()
        &&& self.sealed().holds(value)
    }

    /// `sealed` is the payload that the handle has once its type is
    /// forgotten: the payload it has, where it is erased already, and its
    /// own value sealed under its own type, where it is not.
    pub open spec fn seals_to(&self, sealed: SealedPayload) -> bool where T: Send + Sync + 'static {
        if self.is_erased() {
            sealed == self.sealed()
        } else {
            sealed.holds(self@)
        }
    }

    /// Boxes `item` and takes ownership of it, with a fresh counter that
    /// is made holding zero.
    #[inline]
    pub fn new(item: T) -> (obj: Self)
        ensures
            obj.made_from(item),
            obj.made_with(0),
    {
        Self::from_boxed(Box::new(item))
    }

    /// Boxes `item` and hands out an erased handle to it at once, with a
    /// fresh counter that is made holding zero.
    pub fn new_any<K: Send + Sync + 'static>(item: K) -> (obj: EmObject<EmAny>)
        ensures
            obj.carries(item),
            obj@ == EmAny,
            obj.made_with(0),
    {
        EmObject {
            slot: Slot::Sealed { shown: EmAny::new(), payload: seal(Box::new(item)) },
            refs: Arc::new(AtomicUsize::new(0)),
        }
    }

    /// Takes ownership of a value that is boxed already, with a fresh
    /// counter that is made holding zero. The box is kept as it is.
    pub fn from_boxed(item: Box<T>) -> (obj: Self)
        ensures
            obj.made_from(*item),
            obj.made_with(0),
    {
        EmObject { slot: Slot::Typed(item), refs: Arc::new(AtomicUsize::new(0)) }
    }

    /// Reads the handle without counting the read.
    pub(crate) fn as_ref(&self) -> (value: &T)
        ensures
            *value == self@,
    {
        match &self.slot {
            Slot::Typed(boxed) => &**boxed,
            Slot::Sealed { shown, payload: _ } => shown,
        }
    }

    /// Lends the handle out for reading. One lease is counted on the
    /// handle's counter before the lease is handed out.
    pub fn em_as_ref(&self) -> (lease: ReferencedObject<'_, T>)
        ensures
            lease.taken_from(*self),
            self.lease_counted(),
    {
        self.refs.fetch_add(1, Ordering::SeqCst);
        ReferencedObject::new(share(&self.refs), self.as_ref())
    }

    /// The number of leases that the counter holds at the moment of the
    /// call: what reading the handle's own counter gives.
    pub fn outstanding(&self) -> (count: usize)
        ensures
            self.read_as(count),
    {
        self.refs.load(Ordering::SeqCst)
    }

    /// Forgets the payload's type. The payload stays where it is and the
    /// counter stays the handle's own; a handle that is erased already keeps
    /// its payload.
    pub fn into_any(self) -> (obj: EmObject<EmAny>) where T: Send + Sync + 'static
        ensures
            obj.erasure_of(self),
    {
        let EmObject { slot, refs } = self;
        let payload = match slot {
            Slot::Typed(boxed) => seal(boxed),
            Slot::Sealed { shown: _, payload } => payload,
        };
        EmObject { slot: Slot::Sealed { shown: EmAny::new(), payload }, refs }
    }

    /// Destroys a handle whose counter was read as zero: the payload is
    /// freed, once, and the counter with it.
    ///
    /// A handle on which a lease is still counted must never be destroyed.
    /// That is a fault of the calling program, which has let a lease outlive
    /// its scope, and there is nothing to recover from: the caller reads the
    /// counter with [`EmObject::outstanding`], asks [`destruction_blocked`],
    /// and ends the process where the answer is yes.
    pub fn destroy(object: Self, outstanding: usize)
        requires
            !spec_destruction_blocked(outstanding),
    {
        let EmObject { slot: _, refs: _ } = object;
    }

    /// What [`EmObject::settle`] gives for a handle and the count that was
    /// read on it.
    pub open spec fn spec_settle(object: Self, outstanding: usize) -> Result<
        (),
        StillReferenced<T>,
    > {
        if spec_destruction_blocked(outstanding) {
            Err(StillReferenced { object, outstanding })
        } else {
            Ok(())
        }
    }

    /// `outcome` is the decision on the handle for a count that reading its
    /// own counter gave.
    pub open spec fn settled_by_reading(&self, outcome: Result<(), StillReferenced<T>>) -> bool {
        exists|count: usize| #[trigger]
            self.read_as(count) && outcome == Self::spec_settle(*self, count)
    }

    /// Reads the counter and destroys the handle where it is zero.
    ///
    /// Where a lease is still counted nothing is destroyed and nothing is
    /// freed: the handle comes back in the refusal, with the count that was
    /// read. A refusal is not a destruction and not an error to go on from.
    /// It reports the fault that [`EmObject::destroy`] rules out, and the
    /// caller that gets one is expected to end the process with the handle
    /// still in its hands.
    pub fn try_drop(self) -> (outcome: Result<(), StillReferenced<T>>)
        ensures
            self.settled_by_reading(outcome),
    {
        let outstanding: usize = self.outstanding();
        Self::settle(self, outstanding)
    }

    /// Decides on a handle whose counter was read as `outstanding`: the
    /// handle is destroyed where that count is zero, and comes back
    /// untouched in a refusal where it is not.
    ///
    /// As with [`EmObject::try_drop`], a refusal destroys nothing, and is
    /// there to be failed on.
    pub fn settle(object: Self, outstanding: usize) -> (outcome: Result<(), StillReferenced<T>>)
        ensures
            outcome == Self::spec_settle(object, outstanding),
    {
        if destruction_blocked(outstanding) {
            Err(StillReferenced { object, outstanding })
        } else {
            Self::destroy(object, outstanding);
            Ok(())
        }
    }
}

impl EmObject<EmAny> {
    /// The handle is what erasing `source` gives: it is erased, it counts
    /// on `source`'s counter, and it carries what `source` owned. Where
    /// `source` was erased already, the payload is the one it had.
    pub open spec fn erasure_of<T: Send + Sync + 'static>(&self, source: EmObject<T>) -> bool {
        &&& self.is_erased()
        &&& self@ == EmAny
        &&& self.counter() == source.counter()
        &&& source.seals_to(self.sealed())
    }

    /// `outcome` is what naming the type `K` again gives for the payload
    /// `sealed` of a handle that counts on `counter`.
    ///
    /// A payload that holds a `K` comes back in a typed handle that owns
    /// that value, and only such a payload does. Any other comes back as it
    /// is, in an erased handle. Either way the counter is `counter`.
    pub open spec fn unsealed_gives<K: Send + Sync + 'static>(
        sealed: SealedPayload,
        counter: Arc<AtomicUsize>,
        outcome: Result<EmObject<K>, EmObject<EmAny>>,
    ) -> bool {
        &&& forall|value: K| #[trigger]
            sealed.holds(value) ==> outcome is Ok && outcome->Ok_0.made_from(value)
        &&& match outcome {
            Ok(obj) => {
                &&& !obj.is_erased()
                &&& obj.counter() == counter
                &&& sealed.holds(obj@)
            },
            Err(back) => {
                &&& back.is_erased()
                &&& back@ == EmAny
                &&& back.counter() == counter
                &&& back.sealed() == sealed
            },
        }
    }

    /// `outcome` is what casting the handle to `K` gives.
    ///
    /// An erased handle is cast by its payload. A handle that is not erased
    /// owns the marker itself, and is cast as its erasure would be: by the
    /// marker, sealed.
    pub open spec fn cast_gives<K: Send + Sync + 'static>(
        &self,
        outcome: Result<EmObject<K>, EmObject<EmAny>>,
    ) -> bool {
        exists|sealed: SealedPayload| #[trigger]
            self.seals_to(sealed) && Self::unsealed_gives(sealed, self.counter(), outcome)
    }

    /// Names the payload's type again.
    ///
    /// The handle comes back typed where the payload is a `K`, and comes
    /// back erased, with the payload it had, where it is not. The payload is
    /// not copied.
    pub fn cast<K: Send + Sync + 'static>(self) -> (outcome: Result<EmObject<K>, EmObject<EmAny>>)
        ensures
            self.cast_gives(outcome),
    {
        let EmObject { slot, refs } = self;
        let payload = match slot {
            Slot::Typed(boxed) => seal(boxed),
            Slot::Sealed { shown: _, payload } => payload,
        };
        let outcome = Self::recover(unseal::<K>(payload), refs);
        proof {
            assert(self.seals_to(payload));
            assert(Self::unsealed_gives(payload, self.counter(), outcome));
        }
        outcome
    }

    /// Builds the handle that a cast ends in, from what unsealing the
    /// payload gave and the counter of the handle that was cast.
    pub(crate) fn recover<K>(outcome: Result<Box<K>, SealedPayload>, refs: Arc<AtomicUsize>) -> (cast:
        Result<EmObject<K>, EmObject<EmAny>>)
        ensures
            match outcome {
                Ok(boxed) => cast is Ok && cast->Ok_0.made_from(*boxed) && cast->Ok_0.counter()
                    == refs,
                Err(payload) => cast is Err && cast->Err_0.is_erased() && cast->Err_0.sealed()
                    == payload && cast->Err_0@ == EmAny && cast->Err_0.counter() == refs,
            },
    {
        match outcome {
            Ok(boxed) => Ok(EmObject { slot: Slot::Typed(boxed), refs }),
            Err(payload) => Err(
                EmObject { slot: Slot::Sealed { shown: EmAny::new(), payload }, refs },
            ),
        }
    }
}

impl<T: Clone> EmObject<T> {
    /// Copies the payload into a new handle with a counter of its own.
    ///
    /// The payload is read through a lease, which is given back before the
    /// call returns.
    pub fn em_clone(&self) -> (obj: EmObject<T>)
        ensures
            cloned(self@, obj@),
            !obj.is_erased(),
            obj.made_with(0),
    {
        let lease = self.em_as_ref();
        let data: T = lease.deref().clone();
        EmObject::new(data)
    }
}

impl<'a, T> View for ReferencedObject<'a, T> {
    type V = T;

    /// The value that the lease reads.
    closed spec fn view(&self) -> T {
        *self.holder
    }
}

impl<'a, T> ReferencedObject<'a, T> {
    /// The counter on which the lease is counted.
    pub closed spec fn counter(&self) -> Arc<AtomicUsize> {
        self.counter
    }

    /// The lease's count was given back on the lease's counter.
    pub open spec fn count_given_back(&self) -> bool {
        given_back_on(self.counter())
    }

    /// The lease reads what `obj` holds and is counted on `obj`'s counter.
    pub open spec fn taken_from(&self, obj: EmObject<T>) -> bool {
        &&& self@ == obj@
        &&& self.counter() == obj.counter()
    }

    /// A lease on `holder` that gives one count back to `counter` when it
    /// goes out of scope. The count is taken by the caller.
    pub(crate) fn new(counter: Arc<AtomicUsize>, holder: &'a T) -> (lease: Self)
        ensures
            lease@ == *holder,
            lease.counter() == counter,
    {
        ReferencedObject { counter, holder }
    }
}

impl<'a, T> Deref for ReferencedObject<'a, T> {
    type Target = T;

    fn deref(&self) -> (value: &T)
        ensures
            *value == self@,
    {
        self.holder
    }
}

impl<'a, T> Drop for ReferencedObject<'a, T> {
    /// Gives the lease's count back, once, on the lease's own counter.
    /// The lease itself is left as it was.
    fn drop(&mut self)
        ensures
            old(self).count_given_back(),
            *final(self) == *old(self),
        opens_invariants none
        no_unwind
    {
        give_back(&self.counter, 1, Ordering::SeqCst);
    }
}

/// A payload type that wraps itself into a handle.
pub trait IntoEmObject: Sized {
    /// The same as [`EmObject::new`] on `self`.
    fn into_object(self) -> (obj: EmObject<Self>)
        ensures
            obj.made_from(self),
            obj.made_with(0),
    {
        EmObject::new(self)
    }
}

/// A handle on which no lease is counted may be destroyed, and is, whatever
/// it holds and whether or not it is erased.
pub proof fn unlent_handle_is_destroyed<T>(object: EmObject<T>)
    ensures
        !spec_destruction_blocked(0),
        EmObject::spec_settle(object, 0) is Ok,
{
}

/// Every count but zero blocks destruction, not only a count of one: the
/// handle may not be destroyed, and a decision on it hands it back untouched
/// with the count, whatever it holds and whether or not it is erased.
pub proof fn lent_handle_is_kept<T>(object: EmObject<T>, outstanding: usize)
    requires
        outstanding != 0,
    ensures
        spec_destruction_blocked(outstanding),
        EmObject::spec_settle(object, outstanding) == Err::<(), StillReferenced<T>>(
            (StillReferenced { object, outstanding }),
        ),
{
}

/// Erasing a typed handle and casting it back to the type it had gives a
/// typed handle again, with the value and the counter it had before: a
/// counter that was made holding zero is still that counter.
pub proof fn cast_undoes_erasure<T: Send + Sync + 'static>(
    source: EmObject<T>,
    erased: EmObject<EmAny>,
    outcome: Result<EmObject<T>, EmObject<EmAny>>,
)
    requires
        !source.is_erased(),
        erased.erasure_of(source),
        erased.cast_gives(outcome),
    ensures
        outcome is Ok,
        outcome->Ok_0.made_from(source@),
        outcome->Ok_0.counter() == source.counter(),
        forall|count: usize| source.made_with(count) ==> outcome->Ok_0.made_with(count),
{
}

/// A lease taken on a handle that was just made reads the value the handle
/// was made from.
pub proof fn lease_reads_what_was_wrapped<T>(
    value: T,
    obj: EmObject<T>,
    lease: ReferencedObject<'_, T>,
)
    requires
        obj.made_from(value),
        lease.taken_from(obj),
    ensures
        lease@ == value,
{
}

} // verus!
