//! The object model: the handle, its read lease, the "any" marker and the
//! numeric example payload.

pub mod _any;
pub mod base;
pub mod em_int;
pub mod sealed;

pub use self::_any::EmAny;
pub use self::base::destruction_blocked;
pub use self::base::spec_destruction_blocked;
pub use self::base::EmObject;
pub use self::base::IntoEmObject;
pub use self::base::ReferencedObject;
pub use self::base::StillReferenced;
pub use self::em_int::EmInt;
pub use self::sealed::SealedPayload;
