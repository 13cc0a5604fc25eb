//! The register-width scalar that every cross-boundary field is made of.
//!
//! The protocol ships whole machine words between guest and host, so the
//! model here is deliberately plain: a `Register` is one native `usize`
//! word, with lossless conversion in both directions and a zero default.

use vstd::prelude::*;

verus! {

/// One register-width word as it travels across the trust boundary.
///
/// The view of a `Register` is the `usize` value it carries.
#[derive(Clone, Copy, PartialEq, Eq, Debug)]
pub struct Register {
    value: usize,
}

impl View for Register {
    type V = usize;

    closed spec fn view(&self) -> usize {
        self.value
    }
}

impl Register {
    /// Wrap a native word.
    pub fn new(value: usize) -> (r: Self)
        ensures
            r@ == value,
    {
        Register { value }
    }

    /// Unwrap back to the native word.
    pub fn value(self) -> (v: usize)
        ensures
            v == self@,
    {
        self.value
    }
}

impl Default for Register {
    /// The zero word, used to fill every field a caller did not supply.
    fn default() -> (r: Self)
        ensures
            r@ == 0,
    {
        Register { value: 0 }
    }
}

} // verus!
