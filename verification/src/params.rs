use crate::arity::Arity;
use vstd::prelude::*;

verus! {

/// Total element count hashed in one shot by the variable-length
/// configuration; its parameter set fixes the preimage length instead of
/// deriving the domain separation from the arity alone.
pub const VARIABLE_LENGTH_ELEMENT_COUNT: usize = 15;

/// Round constants and matrices for the width-2 permutation, produced by
/// the external generator; opaque to verification.
#[verifier::external_body]
pub struct Constants2 {
    inner: neptune::poseidon::PoseidonConstants<blstrs::Scalar, generic_array::typenum::U2>,
}

/// Round constants and matrices for the width-4 permutation; opaque.
#[verifier::external_body]
pub struct Constants4 {
    inner: neptune::poseidon::PoseidonConstants<blstrs::Scalar, generic_array::typenum::U4>,
}

/// Round constants and matrices for the width-8 permutation; opaque.
#[verifier::external_body]
pub struct Constants8 {
    inner: neptune::poseidon::PoseidonConstants<blstrs::Scalar, generic_array::typenum::U8>,
}

/// Round constants and matrices for the width-11 permutation; opaque.
#[verifier::external_body]
pub struct Constants11 {
    inner: neptune::poseidon::PoseidonConstants<blstrs::Scalar, generic_array::typenum::U11>,
}

/// Round constants and matrices for the width-16 permutation; opaque.
#[verifier::external_body]
pub struct Constants16 {
    inner: neptune::poseidon::PoseidonConstants<blstrs::Scalar, generic_array::typenum::U16>,
}

/// Round constants and matrices for the width-24 permutation; opaque.
#[verifier::external_body]
pub struct Constants24 {
    inner: neptune::poseidon::PoseidonConstants<blstrs::Scalar, generic_array::typenum::U24>,
}

/// Round constants and matrices for the width-36 permutation; opaque.
#[verifier::external_body]
pub struct Constants36 {
    inner: neptune::poseidon::PoseidonConstants<blstrs::Scalar, generic_array::typenum::U36>,
}

/// Round constants and matrices for constant-preimage-length hashing over
/// the width-15 permutation; opaque.
#[verifier::external_body]
pub struct ConstantsVar15 {
    inner: neptune::poseidon::PoseidonConstants<blstrs::Scalar, generic_array::typenum::U15>,
}

/// The generator's output for one configuration. Each variant carries the
/// constants for one permutation width, so a value for one arity can never
/// be mistaken for another's at the type level.
pub enum PoseidonParams {
    Arity2(Constants2),
    Arity4(Constants4),
    Arity8(Constants8),
    Arity11(Constants11),
    Arity16(Constants16),
    Arity24(Constants24),
    Arity36(Constants36),
    ConstantLength15(ConstantsVar15),
}

/// What the external generator returns for a given arity in Merkle-tree
/// mode: a pure function of the field and the arity, identical in every
/// process and on every machine.
pub uninterp spec fn merkle_params(arity: nat) -> PoseidonParams;

/// What the external generator returns when the total preimage length is
/// fixed instead: a pure function of the field and the length.
pub uninterp spec fn constant_length_params(length: nat) -> PoseidonParams;

/// Relies on `neptune::poseidon::PoseidonConstants::<Scalar, U2>::new`:
/// it deterministically derives the width-2 Merkle-tree parameters from
/// the field and arity alone, and always succeeds.
#[verifier::external_body]
pub(crate) fn build_merkle_2() -> (r: PoseidonParams)
    ensures
        r == merkle_params(2),
{
    PoseidonParams::Arity2(Constants2 { inner: neptune::poseidon::PoseidonConstants::new() })
}

/// Relies on `neptune::poseidon::PoseidonConstants::<Scalar, U4>::new`:
/// deterministic in the field and arity alone, and always succeeds.
#[verifier::external_body]
pub(crate) fn build_merkle_4() -> (r: PoseidonParams)
    ensures
        r == merkle_params(4),
{
    PoseidonParams::Arity4(Constants4 { inner: neptune::poseidon::PoseidonConstants::new() })
}

/// Relies on `neptune::poseidon::PoseidonConstants::<Scalar, U8>::new`:
/// deterministic in the field and arity alone, and always succeeds.
#[verifier::external_body]
pub(crate) fn build_merkle_8() -> (r: PoseidonParams)
    ensures
        r == merkle_params(8),
{
    PoseidonParams::Arity8(Constants8 { inner: neptune::poseidon::PoseidonConstants::new() })
}

/// Relies on `neptune::poseidon::PoseidonConstants::<Scalar, U11>::new`:
/// deterministic in the field and arity alone, and always succeeds.
#[verifier::external_body]
pub(crate) fn build_merkle_11() -> (r: PoseidonParams)
    ensures
        r == merkle_params(11),
{
    PoseidonParams::Arity11(Constants11 { inner: neptune::poseidon::PoseidonConstants::new() })
}

/// Relies on `neptune::poseidon::PoseidonConstants::<Scalar, U16>::new`:
/// deterministic in the field and arity alone, and always succeeds.
#[verifier::external_body]
pub(crate) fn build_merkle_16() -> (r: PoseidonParams)
    ensures
        r == merkle_params(16),
{
    PoseidonParams::Arity16(Constants16 { inner: neptune::poseidon::PoseidonConstants::new() })
}

/// Relies on `neptune::poseidon::PoseidonConstants::<Scalar, U24>::new`:
/// deterministic in the field and arity alone, and always succeeds.
#[verifier::external_body]
pub(crate) fn build_merkle_24() -> (r: PoseidonParams)
    ensures
        r == merkle_params(24),
{
    PoseidonParams::Arity24(Constants24 { inner: neptune::poseidon::PoseidonConstants::new() })
}

/// Relies on `neptune::poseidon::PoseidonConstants::<Scalar, U36>::new`:
/// deterministic in the field and arity alone, and always succeeds.
#[verifier::external_body]
pub(crate) fn build_merkle_36() -> (r: PoseidonParams)
    ensures
        r == merkle_params(36),
{
    PoseidonParams::Arity36(Constants36 { inner: neptune::poseidon::PoseidonConstants::new() })
}

/// Relies on
/// `neptune::poseidon::PoseidonConstants::<Scalar, U15>::new_constant_length`:
/// it deterministically derives parameters whose domain separation fixes
/// the total preimage length, and always succeeds for any length.
#[verifier::external_body]
pub(crate) fn build_constant_length_15(length: usize) -> (r: PoseidonParams)
    ensures
        r == constant_length_params(length as nat),
{
    PoseidonParams::ConstantLength15(ConstantsVar15 {
        inner: neptune::poseidon::PoseidonConstants::new_constant_length(length),
    })
}

/// One complete, immutable parameter set: the arity it was generated for,
/// the fixed total preimage length if it was generated in constant-length
/// mode, and the generator's output itself.
pub struct ParameterSet {
    pub arity: usize,
    pub constant_length: Option<usize>,
    pub payload: PoseidonParams,
}

/// The one parameter set the registry may hold for a supported arity in
/// Merkle-tree mode.
pub open spec fn fixed_set(arity: nat) -> ParameterSet {
    ParameterSet { arity: arity as usize, constant_length: None, payload: merkle_params(arity) }
}

/// The one parameter set the registry may hold for the variable-length
/// configuration.
pub open spec fn variable_length_set() -> ParameterSet {
    ParameterSet {
        arity: VARIABLE_LENGTH_ELEMENT_COUNT,
        constant_length: Some(VARIABLE_LENGTH_ELEMENT_COUNT),
        payload: constant_length_params(VARIABLE_LENGTH_ELEMENT_COUNT as nat),
    }
}

/// Runs the external generator for a supported arity in Merkle-tree mode
/// and labels its output with the arity it was built for.
pub fn build_parameter_set(arity: Arity) -> (r: ParameterSet)
    requires
        arity.supported(),
    ensures
        r == fixed_set(arity.value()),
{
    let payload = match arity {
        Arity::A0 => vstd::pervasive::unreached(),
        Arity::A2 => build_merkle_2(),
        Arity::A4 => build_merkle_4(),
        Arity::A8 => build_merkle_8(),
        Arity::A11 => build_merkle_11(),
        Arity::A16 => build_merkle_16(),
        Arity::A24 => build_merkle_24(),
        Arity::A36 => build_merkle_36(),
    };
    ParameterSet { arity: arity.as_usize(), constant_length: None, payload }
}

/// Runs the external generator in constant-length mode for the
/// variable-length configuration.
pub fn build_variable_length_parameter_set() -> (r: ParameterSet)
    ensures
        r == variable_length_set(),
{
    let payload = build_constant_length_15(VARIABLE_LENGTH_ELEMENT_COUNT);
    ParameterSet {
        arity: VARIABLE_LENGTH_ELEMENT_COUNT,
        constant_length: Some(VARIABLE_LENGTH_ELEMENT_COUNT),
        payload,
    }
}

impl ParameterSet {
    pub fn is_constant_length(&self) -> (r: bool)
        ensures
            r == (self.constant_length is Some),
    {
        self.constant_length.is_some()
    }
}

/// Determinism: independent builds for the same supported arity yield the
/// same parameter set, because the generator is a pure function of the
/// arity.
pub proof fn lemma_build_deterministic(first: ParameterSet, second: ParameterSet, arity: Arity)
    requires
        arity.supported(),
        first == fixed_set(arity.value()),
        second == fixed_set(arity.value()),
    ensures
        first == second,
{
}

/// Per-arity isolation: the parameter sets of two distinct supported
/// arities are never structurally equal.
pub proof fn lemma_per_arity_isolation(a: Arity, b: Arity)
    requires
        a.supported(),
        b.supported(),
        a != b,
    ensures
        fixed_set(a.value()) != fixed_set(b.value()),
{
    assert(a.value() != b.value());
}

/// Variable-length distinctness: the variable-length parameter set differs
/// from every fixed-arity set, including the one whose arity coincides
/// with its element count, since it records the fixed preimage length.
pub proof fn lemma_variable_length_distinct(arity: nat)
    ensures
        variable_length_set() != fixed_set(arity),
{
}

} // verus!
