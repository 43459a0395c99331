//! How a decoder treats what it does not recognize.

use vstd::prelude::*;

verus! {

/// The choice between tolerance and refusal, made when a decoder is built.
#[derive(Debug, Clone, Copy, PartialEq, Eq, Structural)]
pub enum Strictness {
    /// Unknown fields are ignored; an unknown enum spelling is kept as text.
    Lenient,
    /// Unknown fields and unknown enum spellings are failures.
    Strict,
}

impl Default for Strictness {
    /// Lenient, so that what servers add later does not break a client.
    fn default() -> (mode: Strictness)
        ensures
            mode == Strictness::Lenient,
    {
        Strictness::Lenient
    }
}

} // verus!
