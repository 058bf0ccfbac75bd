use std::any::Any;
use vstd::prelude::*;

verus! {

/// A boxed payload whose static type has been forgotten.
///
/// It holds a `Box<dyn Any + Send + Sync>`, a type the verifier cannot look
/// into. What a sealed payload contains is known only through
/// [`SealedPayload::holds`].
#[verifier::external_body]
#[derive(Debug)]
pub struct SealedPayload {
    boxed: Box<dyn Any + Send + Sync>,
}

impl SealedPayload {
    /// The payload is `value`, sealed under the type `K`: sealing `value`
    /// can return this payload.
    pub closed spec fn holds<K: Send + Sync + 'static>(self, value: K) -> bool {
        call_ensures(forget_type::<K>, (Box::new(value),), self)
    }
}

/// Forgets the static type of a boxed payload by the unsizing coercion from
/// `Box<K>` to `Box<dyn Any + Send + Sync>`. The allocation is reused as it
/// is. Nothing is claimed about the result.
#[verifier::external_body]
fn forget_type<K: Send + Sync + 'static>(boxed: Box<K>) -> (sealed: SealedPayload) {
    SealedPayload { boxed }
}

/// Seals a boxed payload. The box is kept; only its type is forgotten.
pub(crate) fn seal<K: Send + Sync + 'static>(boxed: Box<K>) -> (sealed: SealedPayload)
    ensures
        sealed.holds(*boxed),
{
    forget_type(boxed)
}

/// Calls `Box<dyn Any + Send + Sync>::downcast::<K>`, which hands the box
/// back as a `Box<K>` when the payload is a `K`, and fails otherwise.
///
/// The contract claims that this undoes sealing: a payload that was sealed
/// under `K` comes back with the value that was sealed, and a payload that
/// comes back as a `K` was sealed under `K` with that value. A failure hands
/// back the payload that was passed in.
#[verifier::external_body]
pub(crate) fn unseal<K: Send + Sync + 'static>(sealed: SealedPayload) -> (outcome: Result<
    Box<K>,
    SealedPayload,
>)
    ensures
        forall|value: K| #[trigger] sealed.holds(value) ==> outcome is Ok && *outcome->Ok_0 == value,
        outcome matches Ok(boxed) ==> sealed.holds(*boxed),
        outcome matches Err(back) ==> back == sealed,
{
    match sealed.boxed.downcast::<K>() {
        Ok(boxed) => Ok(boxed),
        Err(boxed) => Err(SealedPayload { boxed }),
    }
}

} // verus!
