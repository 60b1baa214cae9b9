use crate::arity::Arity;
use crate::params::{fixed_set, ParameterSet};
use crate::store::ParameterStore;
use vstd::prelude::*;

verus! {

/// Compile-time binding from an arity tag type to the store entry for
/// exactly that arity.
///
/// Generic hashing code parameterized over a tag asks the tag for "its"
/// parameters and can never be handed a set generated for a different
/// arity: the contract pins the result to the one set the tag's arity
/// fixes. The reserved tag [`U0`] exists only to keep the tag universe
/// total; its accessor demands an unsatisfiable precondition, so no
/// verified caller can invoke it, and an unverified caller that does so
/// terminates loudly instead of receiving parameters.
pub trait PoseidonArity: Sized {
    /// The arity this tag stands for.
    spec fn arity() -> Arity;

    /// Returns the store's long-lived parameter set for this tag's arity,
    /// building it on first use exactly as
    /// [`ParameterStore::get_or_init`] does.
    #[allow(non_snake_case)]
    fn PARAMETERS(store: &mut ParameterStore) -> (r: &ParameterSet)
        requires
            Self::arity().supported(),
        ensures
            final(store).entry(Self::arity()) == Some(*r),
            old(store).entry(Self::arity()) is Some ==> *final(store) == *old(store),
            old(store).entry(Self::arity()) is None ==> final(store).entry(Self::arity())
                == Some(fixed_set(Self::arity().value())),
            forall|other: Arity|
                other != Self::arity() ==> final(store).entry(other) == old(store).entry(other),
            final(store).variable_length_entry() == old(store).variable_length_entry(),
            old(store).wf() ==> final(store).wf() && *r == fixed_set(Self::arity().value()),
    ;
}

/// Reserved placeholder tag: structurally present, never usable.
pub struct U0;

/// Tag for binary (arity-2) hashing.
pub struct U2;

/// Tag for quad (arity-4) hashing.
pub struct U4;

/// Tag for oct (arity-8) hashing.
pub struct U8;

/// Tag for arity-11 hashing.
pub struct U11;

/// Tag for arity-16 hashing.
pub struct U16;

/// Tag for arity-24 hashing.
pub struct U24;

/// Tag for arity-36 hashing.
pub struct U36;

/// Arity to use for hasher implementations which are specialized at
/// compile time.
pub type PoseidonBinaryArity = U2;

pub type PoseidonQuadArity = U4;

pub type PoseidonOctArity = U8;

/// Arity to use by default for hashing arbitrarily long data in fixed-size
/// chunks.
pub type PoseidonMDArity = U36;

impl PoseidonArity for U0 {
    open spec fn arity() -> Arity {
        Arity::A0
    }

    fn PARAMETERS(_store: &mut ParameterStore) -> (r: &ParameterSet) {
        vstd::pervasive::unreached()
    }
}

impl PoseidonArity for U2 {
    open spec fn arity() -> Arity {
        Arity::A2
    }

    fn PARAMETERS(store: &mut ParameterStore) -> (r: &ParameterSet) {
        store.get_or_init(Arity::A2)
    }
}

impl PoseidonArity for U4 {
    open spec fn arity() -> Arity {
        Arity::A4
    }

    fn PARAMETERS(store: &mut ParameterStore) -> (r: &ParameterSet) {
        store.get_or_init(Arity::A4)
    }
}

impl PoseidonArity for U8 {
    open spec fn arity() -> Arity {
        Arity::A8
    }

    fn PARAMETERS(store: &mut ParameterStore) -> (r: &ParameterSet) {
        store.get_or_init(Arity::A8)
    }
}

impl PoseidonArity for U11 {
    open spec fn arity() -> Arity {
        Arity::A11
    }

    fn PARAMETERS(store: &mut ParameterStore) -> (r: &ParameterSet) {
        store.get_or_init(Arity::A11)
    }
}

impl PoseidonArity for U16 {
    open spec fn arity() -> Arity {
        Arity::A16
    }

    fn PARAMETERS(store: &mut ParameterStore) -> (r: &ParameterSet) {
        store.get_or_init(Arity::A16)
    }
}

impl PoseidonArity for U24 {
    open spec fn arity() -> Arity {
        Arity::A24
    }

    fn PARAMETERS(store: &mut ParameterStore) -> (r: &ParameterSet) {
        store.get_or_init(Arity::A24)
    }
}

impl PoseidonArity for U36 {
    open spec fn arity() -> Arity {
        Arity::A36
    }

    fn PARAMETERS(store: &mut ParameterStore) -> (r: &ParameterSet) {
        store.get_or_init(Arity::A36)
    }
}

/// Placeholder safety: the reserved tag stands for the one arity without
/// parameters, so the accessor's precondition is unsatisfiable for it and
/// no verified call path can reach its body.
pub proof fn lemma_reserved_tag_unusable()
    ensures
        <U0 as PoseidonArity>::arity() == Arity::A0,
        !<U0 as PoseidonArity>::arity().supported(),
{
}

} // verus!
