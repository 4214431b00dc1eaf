//! The set of backends: their addresses, in order, each with its weight.

use crate::schedule::all_positive;
use vstd::prelude::*;

verus! {

/// Why a list of backends was turned down.
#[derive(Debug, Clone, Copy, PartialEq, Eq, Structural)]
pub enum ConfigurationError {
    /// There are not as many weights as addresses.
    LengthMismatch,
    /// No backend was given.
    Empty,
    /// The backend at `index` has weight zero; it is the first such backend.
    ZeroWeight { index: usize },
}

/// The texts of a list of strings.
pub open spec fn texts(strings: Seq<String>) -> Seq<Seq<char>> {
    Seq::new(strings.len(), |i: int| strings[i]@)
}

/// The first position at or behind `from` that holds a zero weight, or the
/// length of the list where there is none.
pub open spec fn zero_from(weights: Seq<usize>, from: int) -> int
    decreases weights.len() - from,
{
    if from >= weights.len() || weights[from] == 0 {
        from
    } else {
        zero_from(weights, from + 1)
    }
}

/// What is wrong with `count` addresses and these weights, if anything. The
/// lengths are compared first, then the list must not be empty, then every
/// weight must be at least one.
pub open spec fn configuration_error(count: nat, weights: Seq<usize>) -> Option<
    ConfigurationError,
> {
    if count != weights.len() {
        Some(ConfigurationError::LengthMismatch)
    } else if count == 0 {
        Some(ConfigurationError::Empty)
    } else if !all_positive(weights) {
        Some(ConfigurationError::ZeroWeight { index: zero_from(weights, 0) as usize })
    } else {
        None
    }
}

/// A list of backends is accepted exactly when it is not empty, has one
/// weight for each address, and no weight is zero.
pub proof fn lemma_accepted_configurations(count: nat, weights: Seq<usize>)
    ensures
        configuration_error(count, weights) is None <==> (count == weights.len() && count > 0
            && all_positive(weights)),
{
}

/// The position reported for a zero weight holds one, and no position before
/// it does.
pub proof fn lemma_zero_from_is_first(weights: Seq<usize>, from: int)
    requires
        0 <= from <= weights.len(),
    ensures
        from <= zero_from(weights, from) <= weights.len(),
        zero_from(weights, from) < weights.len() ==> weights[zero_from(weights, from)] == 0,
        forall|j: int| from <= j < zero_from(weights, from) ==> weights[j] >= 1,
    decreases weights.len() - from,
{
    if from < weights.len() && weights[from] != 0 {
        lemma_zero_from_is_first(weights, from + 1);
    }
}

/// The backends of one run: addresses in order, each with a weight of at
/// least one. The list is never empty, and it does not change once built.
pub struct BackendSet {
    addresses: Vec<String>,
    weights: Vec<usize>,
}

impl BackendSet {
    /// The addresses, in the order in which they were given.
    pub closed spec fn addresses(&self) -> Seq<Seq<char>> {
        texts(self.addresses@)
    }

    /// The weights; `weights()[i]` belongs to `addresses()[i]`.
    pub closed spec fn weights(&self) -> Seq<usize> {
        self.weights@
    }

    /// What holds of every set: its lists are an accepted configuration.
    #[verifier::type_invariant]
    pub open spec fn wf(&self) -> bool {
        configuration_error(self.addresses().len(), self.weights()) is None
    }

    /// Builds the set, or says why the lists cannot be one.
    pub fn new(addresses: Vec<String>, weights: Vec<usize>) -> (result: Result<
        BackendSet,
        ConfigurationError,
    >)
        ensures
            match result {
                Ok(set) => {
                    &&& configuration_error(addresses@.len(), weights@) is None
                    &&& set.addresses() == texts(addresses@)
                    &&& set.weights() == weights@
                    &&& set.wf()
                },
                Err(error) => configuration_error(addresses@.len(), weights@) == Some(error),
            },
    {
        if addresses.len() != weights.len() {
            return Err(ConfigurationError::LengthMismatch);
        }
        if addresses.len() == 0 {
            return Err(ConfigurationError::Empty);
        }
        let mut i: usize = 0;
        while i < weights.len()
            invariant
                i <= weights.len(),
                addresses@.len() == weights@.len(),
                weights@.len() > 0,
                forall|j: int| 0 <= j < i ==> weights[j] >= 1,
                zero_from(weights@, 0) == zero_from(weights@, i as int),
            decreases weights.len() - i,
        {
            if weights[i] == 0 {
                return Err(ConfigurationError::ZeroWeight { index: i });
            }
            i += 1;
        }
        Ok(BackendSet { addresses, weights })
    }

    /// The number of backends; at least one.
    pub fn len(&self) -> (count: usize)
        ensures
            count == self.addresses().len(),
            count == self.weights().len(),
            count >= 1,
            self.wf(),
    {
        proof {
            use_type_invariant(self);
        }
        self.addresses.len()
    }

    /// The address of backend `index`.
    pub fn address(&self, index: usize) -> (address: &String)
        requires
            index < self.addresses().len(),
        ensures
            address@ == self.addresses()[index as int],
    {
        &self.addresses[index]
    }

    /// The weight of backend `index`.
    pub fn weight(&self, index: usize) -> (weight: usize)
        requires
            index < self.weights().len(),
        ensures
            weight == self.weights()[index as int],
            weight >= 1,
    {
        proof {
            use_type_invariant(self);
        }
        self.weights[index]
    }
}

} // verus!
