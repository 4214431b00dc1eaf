//! The selector: it hands out the backends in the order of the weighted
//! round-robin schedule, one selection for each call.

use crate::backend::{configuration_error, texts, BackendSet, ConfigurationError};
use crate::schedule::{
    lemma_block_owner, lemma_owner_in_range, lemma_prefix_at_least_count,
    lemma_prefix_monotonic, next_slot, prefix_weight, selection, slot_owner, total_weight,
};
use vstd::arithmetic::div_mod::{
    lemma_add_mod_noop_right, lemma_mod_bound, lemma_mod_self_0, lemma_small_mod,
};
use vstd::prelude::*;
use vstd::rwlock::{RwLock, RwLockPredicate};

verus! {

/// Where a selector stands: the backends it rotates over, and the slot of the
/// cycle that the next selection falls on.
pub struct Rotation {
    pub addresses: Seq<Seq<char>>,
    pub weights: Seq<usize>,
    pub slot: nat,
}

impl Rotation {
    /// The backends are an accepted configuration and the slot lies in the
    /// cycle.
    pub open spec fn wf(self) -> bool {
        &&& configuration_error(self.addresses.len(), self.weights) is None
        &&& self.slot < total_weight(self.weights)
    }

    /// The rotation before any selection.
    pub open spec fn fresh(addresses: Seq<Seq<char>>, weights: Seq<usize>) -> Rotation {
        Rotation { addresses, weights, slot: 0 }
    }

    /// The backend that the next selection returns.
    pub open spec fn current(self) -> int {
        slot_owner(self.weights, self.slot as int)
    }

    /// The address that the next selection returns.
    pub open spec fn current_address(self) -> Seq<char> {
        self.addresses[self.current()]
    }

    /// The rotation after one selection.
    pub open spec fn step(self) -> Rotation {
        Rotation {
            addresses: self.addresses,
            weights: self.weights,
            slot: next_slot(self.weights, self.slot),
        }
    }

    /// The rotation after `count` selections.
    pub open spec fn after(self, count: nat) -> Rotation
        decreases count,
    {
        if count == 0 {
            self
        } else {
            self.after((count - 1) as nat).step()
        }
    }

    /// The addresses that the next `count` selections return, in order.
    pub open spec fn served(self, count: nat) -> Seq<Seq<char>> {
        Seq::new(count, |n: int| self.after(n as nat).current_address())
    }
}

/// An accepted configuration has a cycle of at least one slot.
pub proof fn lemma_cycle_not_empty(count: nat, weights: Seq<usize>)
    requires
        configuration_error(count, weights) is None,
    ensures
        total_weight(weights) >= count,
        total_weight(weights) >= 1,
{
    lemma_prefix_at_least_count(weights, weights.len() as int);
}

/// A selection leaves the rotation well formed, and returns one of the
/// configured addresses.
pub proof fn lemma_step_keeps_wf(rotation: Rotation)
    requires
        rotation.wf(),
    ensures
        rotation.step().wf(),
        0 <= rotation.current() < rotation.addresses.len(),
{
    lemma_mod_bound((rotation.slot + 1) as int, total_weight(rotation.weights) as int);
    lemma_owner_in_range(rotation.weights, rotation.slot as int);
}

/// After `count` selections the rotation has moved on by `count` slots, round
/// the cycle as often as it takes; the backends are unchanged.
pub proof fn lemma_after(rotation: Rotation, count: nat)
    requires
        rotation.wf(),
    ensures
        rotation.after(count).wf(),
        rotation.after(count).addresses == rotation.addresses,
        rotation.after(count).weights == rotation.weights,
        rotation.after(count).slot == (rotation.slot + count) % total_weight(rotation.weights),
    decreases count,
{
    let total: int = total_weight(rotation.weights) as int;
    if count == 0 {
        lemma_small_mod(rotation.slot, total as nat);
    } else {
        let before: nat = (count - 1) as nat;
        lemma_after(rotation, before);
        lemma_step_keeps_wf(rotation.after(before));
        lemma_add_mod_noop_right(1, (rotation.slot + before) as int, total);
        assert(1 + (rotation.slot + before) == rotation.slot + count);
    }
}

/// Selections made in two runs give what one run of both lengths gives.
pub proof fn lemma_after_composes(rotation: Rotation, first: nat, second: nat)
    ensures
        rotation.after(first).after(second) == rotation.after(first + second),
    decreases second,
{
    if second > 0 {
        lemma_after_composes(rotation, first, (second - 1) as nat);
        assert((first + second - 1) as nat == first + (second - 1) as nat);
    }
}

/// Counting from a fresh rotation, selection number `n` returns the backend
/// that the schedule names for `n`.
pub proof fn lemma_nth_selection(rotation: Rotation, n: nat)
    requires
        rotation.wf(),
        rotation.slot == 0,
    ensures
        rotation.after(n).current() == selection(rotation.weights, n),
        0 <= selection(rotation.weights, n) < rotation.addresses.len(),
        rotation.after(n).current_address() == rotation.addresses[selection(rotation.weights, n)],
{
    lemma_after(rotation, n);
    lemma_step_keeps_wf(rotation.after(n));
}

/// The addresses of the first `count` entries of the schedule.
pub open spec fn scheduled(
    addresses: Seq<Seq<char>>,
    weights: Seq<usize>,
    count: nat,
) -> Seq<Seq<char>> {
    Seq::new(count, |n: int| addresses[selection(weights, n as nat)])
}

/// The addresses that `count` selections return, made one after another
/// from a fresh rotation, are the first `count` entries of the schedule, in
/// that order. So no address comes more often or less often than the
/// schedule has it, whoever made which of the selections.
pub proof fn lemma_served_follows_schedule(rotation: Rotation, count: nat)
    requires
        rotation.wf(),
        rotation.slot == 0,
    ensures
        rotation.served(count) == scheduled(rotation.addresses, rotation.weights, count),
        rotation.served(count).to_multiset() == scheduled(
            rotation.addresses,
            rotation.weights,
            count,
        ).to_multiset(),
{
    let schedule = scheduled(rotation.addresses, rotation.weights, count);
    assert forall|n: int| 0 <= n < count implies rotation.served(count)[n] == schedule[n] by {
        lemma_nth_selection(rotation, n as nat);
    }
    assert(rotation.served(count) =~= schedule);
}

/// A weighted round-robin selector over a fixed set of backends.
///
/// A selection needs the selector to itself (`&mut self`), so the selections
/// of all callers stand in one order, and each is one step of the rotation.
pub struct LoadBalancer {
    backends: BackendSet,
    current: usize,
    counter: usize,
}

impl View for LoadBalancer {
    type V = Rotation;

    closed spec fn view(&self) -> Rotation {
        Rotation {
            addresses: self.backends.addresses(),
            weights: self.backends.weights(),
            slot: prefix_weight(self.backends.weights(), self.current as int)
                + self.counter as nat,
        }
    }
}

impl LoadBalancer {
    #[verifier::type_invariant]
    spec fn inv(&self) -> bool {
        &&& self.backends.wf()
        &&& self.current < self.backends.weights().len()
        &&& self.counter < self.backends.weights()[self.current as int]
    }

    proof fn lemma_view_wf(&self)
        requires
            self.inv(),
        ensures
            self@.wf(),
    {
        lemma_prefix_monotonic(
            self.backends.weights(),
            self.current + 1,
            self.backends.weights().len() as int,
        );
    }

    /// Builds a selector over `servers` with `weights`, standing before its
    /// first selection, or says why the lists are no configuration.
    pub fn new(servers: Vec<String>, weights: Vec<usize>) -> (result: Result<
        LoadBalancer,
        ConfigurationError,
    >)
        ensures
            match result {
                Ok(balancer) => {
                    &&& configuration_error(servers@.len(), weights@) is None
                    &&& balancer@ == Rotation::fresh(texts(servers@), weights@)
                    &&& balancer@.wf()
                },
                Err(error) => configuration_error(servers@.len(), weights@) == Some(error),
            },
    {
        match BackendSet::new(servers, weights) {
            Ok(backends) => {
                proof {
                    lemma_cycle_not_empty(backends.addresses().len(), backends.weights());
                }
                Ok(LoadBalancer { backends, current: 0, counter: 0 })
            },
            Err(error) => Err(error),
        }
    }

    /// Builds a selector over an accepted set of backends.
    pub fn with_backends(backends: BackendSet) -> (balancer: LoadBalancer)
        ensures
            balancer@ == Rotation::fresh(backends.addresses(), backends.weights()),
            balancer@.wf(),
    {
        proof {
            use_type_invariant(&backends);
            lemma_cycle_not_empty(backends.addresses().len(), backends.weights());
        }
        LoadBalancer { backends, current: 0, counter: 0 }
    }

    /// The backends that the selector rotates over.
    pub fn backends(&self) -> (backends: &BackendSet)
        ensures
            backends.addresses() == self@.addresses,
            backends.weights() == self@.weights,
            backends.wf(),
    {
        proof {
            use_type_invariant(self);
        }
        &self.backends
    }

    /// Selects the next backend and returns its address.
    ///
    /// The address is that of the backend owning the slot the rotation stands
    /// on; the rotation then moves to the next slot.
    pub fn get_server(&mut self) -> (server: String)
        ensures
            server@ == old(self)@.current_address(),
            0 <= old(self)@.current() < old(self)@.addresses.len(),
            final(self)@ == old(self)@.step(),
            final(self)@.wf(),
    {
        proof {
            use_type_invariant(&*self);
        }
        let index: usize = self.current;
        let count: usize = self.backends.len();
        let weight: usize = self.backends.weight(index);
        let server: String = self.backends.address(index).clone();
        let ghost weights: Seq<usize> = self.backends.weights();
        let ghost slot: nat = self@.slot;
        proof {
            lemma_block_owner(weights, index as int, self.counter as int);
            lemma_prefix_monotonic(weights, index + 1, count as int);
        }
        let served: usize = self.counter + 1;
        if served == weight {
            let next: usize = if index + 1 == count {
                0
            } else {
                index + 1
            };
            proof {
                if index + 1 == count {
                    lemma_mod_self_0(total_weight(weights) as int);
                } else {
                    lemma_prefix_monotonic(weights, index + 2, count as int);
                    lemma_small_mod(slot + 1, total_weight(weights));
                }
            }
            self.counter = 0;
            self.current = next;
        } else {
            proof {
                lemma_small_mod(slot + 1, total_weight(weights));
            }
            self.counter = served;
        }
        server
    }
}

/// What the lock of a shared selector keeps true of the selector inside it:
/// it is well formed, and its backends are those it was built with.
pub struct SameBackends {
    pub addresses: Seq<Seq<char>>,
    pub weights: Seq<usize>,
}

impl RwLockPredicate<LoadBalancer> for SameBackends {
    open spec fn inv(self, balancer: LoadBalancer) -> bool {
        &&& balancer@.wf()
        &&& balancer@.addresses == self.addresses
        &&& balancer@.weights == self.weights
    }
}

/// A selector that many workers share. Each selection is made with the lock
/// held, so it is one whole step of the rotation, and the selections of all
/// workers stand in one order.
pub struct SharedLoadBalancer {
    rotation: RwLock<LoadBalancer, SameBackends>,
}

impl SharedLoadBalancer {
    /// The addresses of the backends.
    pub closed spec fn addresses(&self) -> Seq<Seq<char>> {
        self.rotation.pred().addresses
    }

    /// The weights of the backends.
    pub closed spec fn weights(&self) -> Seq<usize> {
        self.rotation.pred().weights
    }

    /// Puts `balancer` behind a lock. The rotation goes on from where
    /// `balancer` stands.
    pub fn share(balancer: LoadBalancer) -> (shared: SharedLoadBalancer)
        ensures
            shared.addresses() == balancer@.addresses,
            shared.weights() == balancer@.weights,
    {
        proof {
            use_type_invariant(&balancer);
            balancer.lemma_view_wf();
        }
        let ghost kept = SameBackends {
            addresses: balancer@.addresses,
            weights: balancer@.weights,
        };
        SharedLoadBalancer { rotation: RwLock::new(balancer, Ghost(kept)) }
    }

    /// Builds a shared selector over `servers` with `weights`, standing
    /// before its first selection, or says why the lists are no
    /// configuration.
    pub fn new(servers: Vec<String>, weights: Vec<usize>) -> (result: Result<
        SharedLoadBalancer,
        ConfigurationError,
    >)
        ensures
            match result {
                Ok(shared) => {
                    &&& configuration_error(servers@.len(), weights@) is None
                    &&& shared.addresses() == texts(servers@)
                    &&& shared.weights() == weights@
                },
                Err(error) => configuration_error(servers@.len(), weights@) == Some(error),
            },
    {
        match LoadBalancer::new(servers, weights) {
            Ok(balancer) => Ok(SharedLoadBalancer::share(balancer)),
            Err(error) => Err(error),
        }
    }

    /// Selects the next backend and returns its address.
    ///
    /// Which backend it is depends on the selections that other workers
    /// have made before; it is always one of the configured ones.
    pub fn get_server(&self) -> (server: String)
        ensures
            self.addresses().contains(server@),
    {
        let (balancer, handle) = self.rotation.acquire_write();
        let mut balancer = balancer;
        let server: String = balancer.get_server();
        handle.release_write(balancer);
        server
    }
}

} // verus!
