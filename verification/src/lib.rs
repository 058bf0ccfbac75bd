//! Reference-counted, type-erasable object handles for a small dynamic
//! language runtime.
//!
//! Every runtime value is boxed once and owned by exactly one [`objects::EmObject`].
//! A handle can forget its payload type so that it can sit in a heterogeneous
//! container, and recover it later. Reads go through scoped leases that are
//! counted on a shared atomic counter; a handle may only be destroyed while
//! that counter reads zero.

pub mod objects;
