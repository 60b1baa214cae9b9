use crate::arity::Arity;
use crate::params::{
    build_parameter_set, build_variable_length_parameter_set, fixed_set, variable_length_set,
    ParameterSet,
};
use vstd::prelude::*;

verus! {

/// The process-wide parameter store: at most one parameter set per
/// supported arity, plus the distinguished variable-length entry, each
/// built lazily on first demand and kept unchanged for the life of the
/// store.
///
/// An entry has exactly two states, absent and built; once built it is
/// never replaced or removed, so every later access observes the very
/// value the first access stored.
pub struct ParameterStore {
    pub arity2: Option<ParameterSet>,
    pub arity4: Option<ParameterSet>,
    pub arity8: Option<ParameterSet>,
    pub arity11: Option<ParameterSet>,
    pub arity16: Option<ParameterSet>,
    pub arity24: Option<ParameterSet>,
    pub arity36: Option<ParameterSet>,
    pub variable_length: Option<ParameterSet>,
}

impl ParameterStore {
    /// The slot owned by a given arity; the reserved placeholder owns none.
    pub open spec fn entry(self, arity: Arity) -> Option<ParameterSet> {
        match arity {
            Arity::A0 => None,
            Arity::A2 => self.arity2,
            Arity::A4 => self.arity4,
            Arity::A8 => self.arity8,
            Arity::A11 => self.arity11,
            Arity::A16 => self.arity16,
            Arity::A24 => self.arity24,
            Arity::A36 => self.arity36,
        }
    }

    pub open spec fn variable_length_entry(self) -> Option<ParameterSet> {
        self.variable_length
    }

    /// Well-formedness: every built entry holds the one correct parameter
    /// set for its slot, never one generated for a different arity or mode.
    pub open spec fn wf(self) -> bool {
        &&& (self.arity2 is Some ==> self.arity2 == Some(fixed_set(2)))
        &&& (self.arity4 is Some ==> self.arity4 == Some(fixed_set(4)))
        &&& (self.arity8 is Some ==> self.arity8 == Some(fixed_set(8)))
        &&& (self.arity11 is Some ==> self.arity11 == Some(fixed_set(11)))
        &&& (self.arity16 is Some ==> self.arity16 == Some(fixed_set(16)))
        &&& (self.arity24 is Some ==> self.arity24 == Some(fixed_set(24)))
        &&& (self.arity36 is Some ==> self.arity36 == Some(fixed_set(36)))
        &&& (self.variable_length is Some ==> self.variable_length == Some(variable_length_set()))
    }

    /// How many entries have been built so far; each construction fills
    /// exactly one empty slot, so this counts constructions performed.
    pub open spec fn built_count(self) -> int {
        (if self.arity2 is Some { 1int } else { 0int })
            + (if self.arity4 is Some { 1int } else { 0int })
            + (if self.arity8 is Some { 1int } else { 0int })
            + (if self.arity11 is Some { 1int } else { 0int })
            + (if self.arity16 is Some { 1int } else { 0int })
            + (if self.arity24 is Some { 1int } else { 0int })
            + (if self.arity36 is Some { 1int } else { 0int })
            + (if self.variable_length is Some { 1int } else { 0int })
    }

    /// A store with nothing built yet.
    pub fn new() -> (r: Self)
        ensures
            forall|arity: Arity| r.entry(arity) is None,
            r.variable_length_entry() is None,
            r.built_count() == 0,
            r.wf(),
    {
        ParameterStore {
            arity2: None,
            arity4: None,
            arity8: None,
            arity11: None,
            arity16: None,
            arity24: None,
            arity36: None,
            variable_length: None,
        }
    }

    /// Returns the parameter set for a supported arity, building it if and
    /// only if this arity's entry does not exist yet.
    ///
    /// Memoization: when the entry already exists the store is left
    /// untouched and the stored value itself is returned, so two
    /// sequential calls for one arity construct once and observe the same
    /// value. Entries of other arities are never consulted or changed.
    pub fn get_or_init(&mut self, arity: Arity) -> (r: &ParameterSet)
        requires
            arity.supported(),
        ensures
            final(self).entry(arity) == Some(*r),
            old(self).entry(arity) is Some ==> *final(self) == *old(self),
            old(self).entry(arity) is None ==> final(self).entry(arity) == Some(
                fixed_set(arity.value()),
            ),
            old(self).entry(arity) is None ==> final(self).built_count() == old(
                self,
            ).built_count() + 1,
            forall|other: Arity|
                other != arity ==> final(self).entry(other) == old(self).entry(other),
            final(self).variable_length_entry() == old(self).variable_length_entry(),
            old(self).wf() ==> final(self).wf() && *r == fixed_set(arity.value()),
    {
        match arity {
            Arity::A0 => vstd::pervasive::unreached(),
            Arity::A2 => {
                if self.arity2.is_none() {
                    self.arity2 = Some(build_parameter_set(arity));
                }
                self.arity2.as_ref().unwrap()
            },
            Arity::A4 => {
                if self.arity4.is_none() {
                    self.arity4 = Some(build_parameter_set(arity));
                }
                self.arity4.as_ref().unwrap()
            },
            Arity::A8 => {
                if self.arity8.is_none() {
                    self.arity8 = Some(build_parameter_set(arity));
                }
                self.arity8.as_ref().unwrap()
            },
            Arity::A11 => {
                if self.arity11.is_none() {
                    self.arity11 = Some(build_parameter_set(arity));
                }
                self.arity11.as_ref().unwrap()
            },
            Arity::A16 => {
                if self.arity16.is_none() {
                    self.arity16 = Some(build_parameter_set(arity));
                }
                self.arity16.as_ref().unwrap()
            },
            Arity::A24 => {
                if self.arity24.is_none() {
                    self.arity24 = Some(build_parameter_set(arity));
                }
                self.arity24.as_ref().unwrap()
            },
            Arity::A36 => {
                if self.arity36.is_none() {
                    self.arity36 = Some(build_parameter_set(arity));
                }
                self.arity36.as_ref().unwrap()
            },
        }
    }

    /// Returns the variable-length parameter set, building it if and only
    /// if its entry does not exist yet; the arity entries are never
    /// consulted or changed.
    pub fn get_or_init_variable_length(&mut self) -> (r: &ParameterSet)
        ensures
            final(self).variable_length_entry() == Some(*r),
            old(self).variable_length_entry() is Some ==> *final(self) == *old(self),
            old(self).variable_length_entry() is None ==> final(self).variable_length_entry()
                == Some(variable_length_set()),
            old(self).variable_length_entry() is None ==> final(self).built_count() == old(
                self,
            ).built_count() + 1,
            forall|arity: Arity| final(self).entry(arity) == old(self).entry(arity),
            old(self).wf() ==> final(self).wf() && *r == variable_length_set(),
    {
        if self.variable_length.is_none() {
            self.variable_length = Some(build_variable_length_parameter_set());
        }
        self.variable_length.as_ref().unwrap()
    }

    /// How many parameter sets this store has constructed.
    pub fn construction_count(&self) -> (r: usize)
        ensures
            r == self.built_count(),
    {
        let mut count: usize = 0;
        if self.arity2.is_some() {
            count += 1;
        }
        if self.arity4.is_some() {
            count += 1;
        }
        if self.arity8.is_some() {
            count += 1;
        }
        if self.arity11.is_some() {
            count += 1;
        }
        if self.arity16.is_some() {
            count += 1;
        }
        if self.arity24.is_some() {
            count += 1;
        }
        if self.arity36.is_some() {
            count += 1;
        }
        if self.variable_length.is_some() {
            count += 1;
        }
        count
    }
}

/// All observers agree: whatever two well-formed stores hold for one
/// supported arity, a built entry is the single parameter set that arity
/// fixes, so every observer of it sees the same completed value.
pub proof fn lemma_single_value_per_arity(
    first: ParameterStore,
    second: ParameterStore,
    arity: Arity,
    p1: ParameterSet,
    p2: ParameterSet,
)
    requires
        first.wf(),
        second.wf(),
        arity.supported(),
        first.entry(arity) == Some(p1),
        second.entry(arity) == Some(p2),
    ensures
        p1 == fixed_set(arity.value()),
        p1 == p2,
{
}

} // verus!
