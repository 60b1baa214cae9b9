use vstd::prelude::*;

verus! {

/// Arity used by Merkle-tree hashers that are specialized at compile time.
pub const MERKLE_TREE_ARITY: usize = 2;

/// The closed set of arities the registry supplies parameters for.
///
/// `A0` is a reserved placeholder: it keeps the enumeration total over the
/// arity universe used elsewhere, but no parameter set exists for it and
/// its accessor must never be invoked.
#[derive(Clone, Copy, Debug, PartialEq, Eq, Structural)]
pub enum Arity {
    A0,
    A2,
    A4,
    A8,
    A11,
    A16,
    A24,
    A36,
}

impl Arity {
    /// The number of field elements the permutation absorbs per call.
    pub open spec fn value(self) -> nat {
        match self {
            Arity::A0 => 0,
            Arity::A2 => 2,
            Arity::A4 => 4,
            Arity::A8 => 8,
            Arity::A11 => 11,
            Arity::A16 => 16,
            Arity::A24 => 24,
            Arity::A36 => 36,
        }
    }

    /// Every arity but the reserved placeholder has a parameter set.
    pub open spec fn supported(self) -> bool {
        !(self is A0)
    }

    pub fn as_usize(self) -> (r: usize)
        ensures
            r == self.value(),
    {
        match self {
            Arity::A0 => 0,
            Arity::A2 => 2,
            Arity::A4 => 4,
            Arity::A8 => 8,
            Arity::A11 => 11,
            Arity::A16 => 16,
            Arity::A24 => 24,
            Arity::A36 => 36,
        }
    }

    pub fn is_supported(self) -> (r: bool)
        ensures
            r == self.supported(),
    {
        match self {
            Arity::A0 => false,
            _ => true,
        }
    }
}

} // verus!
