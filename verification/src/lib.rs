//! A registry of the numeric parameters (round constants and mixing
//! matrices) needed to run the Poseidon permutation at each supported
//! arity.
//!
//! The registry has two halves: a [`ParameterStore`] that owns at most one
//! lazily built [`ParameterSet`] per supported arity, and the
//! [`PoseidonArity`] capability trait that binds a compile-time arity tag
//! to the store entry for exactly that arity.

mod arity;
mod capability;
mod params;
mod store;

pub use arity::Arity;
pub use arity::MERKLE_TREE_ARITY;
pub use capability::lemma_reserved_tag_unusable;
pub use capability::PoseidonArity;
pub use capability::PoseidonBinaryArity;
pub use capability::PoseidonMDArity;
pub use capability::PoseidonOctArity;
pub use capability::PoseidonQuadArity;
pub use capability::U0;
pub use capability::U11;
pub use capability::U16;
pub use capability::U2;
pub use capability::U24;
pub use capability::U36;
pub use capability::U4;
pub use capability::U8;
pub use params::build_parameter_set;
pub use params::build_variable_length_parameter_set;
pub use params::constant_length_params;
pub use params::fixed_set;
pub use params::lemma_build_deterministic;
pub use params::lemma_per_arity_isolation;
pub use params::lemma_variable_length_distinct;
pub use params::merkle_params;
pub use params::variable_length_set;
pub use params::Constants11;
pub use params::Constants16;
pub use params::Constants2;
pub use params::Constants24;
pub use params::Constants36;
pub use params::Constants4;
pub use params::Constants8;
pub use params::ConstantsVar15;
pub use params::ParameterSet;
pub use params::PoseidonParams;
pub use params::VARIABLE_LENGTH_ELEMENT_COUNT;
pub use store::lemma_single_value_per_arity;
pub use store::ParameterStore;
