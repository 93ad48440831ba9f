//! Verified core of a newtype-pattern expander.
//!
//! Given one struct-like declaration with exactly one unnamed field, the
//! library classifies the field's type as textual, scalar or other, and
//! renders the source text of a bundle of conversion and accessor
//! declarations for it.  Every wrapper produced this way implements the
//! [`ValueStruct`] capability: one wrapped value, retrievable by reference.

use vstd::prelude::*;

pub mod classify;
pub mod decl;
pub mod emit;
pub mod wrappers;

verus! {

/// Uniform capability of a wrapper type: it stores exactly one value,
/// retrievable by an immutable reference.
pub trait ValueStruct {
    type ValueType;

    /// The wrapped value, as specifications see it.
    spec fn value_spec(&self) -> Self::ValueType;

    /// Returns a reference to the wrapped value.
    fn value(&self) -> (r: &Self::ValueType)
        ensures
            *r == self.value_spec(),
    ;
}

} // verus!
