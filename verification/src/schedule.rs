//! The weighted round-robin schedule, as arithmetic on the list of weights.
//!
//! One cycle of the rotation has as many slots as the weights sum to. Backend
//! `i` owns `weights[i]` consecutive slots, and the blocks follow each other
//! in the order of the backends. The selection number `n` (counting from zero)
//! falls on slot `n` modulo the length of the cycle.

use vstd::arithmetic::div_mod::{
    lemma_fundamental_div_mod, lemma_fundamental_div_mod_converse, lemma_mod_add_multiples_vanish,
    lemma_mod_bound, lemma_small_mod,
};
use vstd::prelude::*;

verus! {

/// Every backend has a weight of at least one.
pub open spec fn all_positive(weights: Seq<usize>) -> bool {
    forall|i: int| 0 <= i < weights.len() ==> weights[i] >= 1
}

/// The number of slots that the first `count` backends own together.
pub open spec fn prefix_weight(weights: Seq<usize>, count: int) -> nat
    decreases count,
{
    if count <= 0 {
        0
    } else {
        prefix_weight(weights, count - 1) + weights[count - 1] as nat
    }
}

/// The length of one cycle: the sum of all weights.
pub open spec fn total_weight(weights: Seq<usize>) -> nat {
    prefix_weight(weights, weights.len() as int)
}

/// The backend that owns the slot lying `offset` slots behind the start of
/// the block of backend `from`.
pub open spec fn owner_from(weights: Seq<usize>, from: int, offset: int) -> int
    decreases weights.len() - from,
{
    if from + 1 >= weights.len() || offset < weights[from] {
        from
    } else {
        owner_from(weights, from + 1, offset - weights[from])
    }
}

/// The backend that owns slot `slot` of a cycle.
pub open spec fn slot_owner(weights: Seq<usize>, slot: int) -> int {
    owner_from(weights, 0, slot)
}

/// The slot that follows `slot`, wrapping round at the end of the cycle.
pub open spec fn next_slot(weights: Seq<usize>, slot: nat) -> nat {
    (slot + 1) % total_weight(weights)
}

/// The backend chosen by selection number `n`, counting from zero.
pub open spec fn selection(weights: Seq<usize>, n: nat) -> int {
    slot_owner(weights, (n % total_weight(weights)) as int)
}

/// The prefix sums grow with the number of backends counted.
pub proof fn lemma_prefix_monotonic(weights: Seq<usize>, i: int, j: int)
    requires
        0 <= i <= j,
    ensures
        prefix_weight(weights, i) <= prefix_weight(weights, j),
    decreases j - i,
{
    if i < j {
        lemma_prefix_monotonic(weights, i, j - 1);
    }
}

/// With positive weights each of the first `count` backends owns at least one
/// slot.
pub proof fn lemma_prefix_at_least_count(weights: Seq<usize>, count: int)
    requires
        all_positive(weights),
        0 <= count <= weights.len(),
    ensures
        prefix_weight(weights, count) >= count,
    decreases count,
{
    if count > 0 {
        lemma_prefix_at_least_count(weights, count - 1);
    }
}

proof fn lemma_owner_from_block(weights: Seq<usize>, from: int, i: int, k: int)
    requires
        0 <= from <= i < weights.len(),
        0 <= k < weights[i],
    ensures
        owner_from(weights, from, prefix_weight(weights, i) - prefix_weight(weights, from) + k)
            == i,
    decreases i - from,
{
    if from < i {
        lemma_prefix_monotonic(weights, from + 1, i);
        lemma_owner_from_block(weights, from + 1, i, k);
    }
}

proof fn lemma_owner_from_bounds(weights: Seq<usize>, from: int, offset: int)
    requires
        0 <= from < weights.len(),
        0 <= offset < total_weight(weights) - prefix_weight(weights, from),
    ensures
        ({
            let owner = owner_from(weights, from, offset);
            &&& from <= owner < weights.len()
            &&& prefix_weight(weights, owner) - prefix_weight(weights, from) <= offset
            &&& offset < prefix_weight(weights, owner + 1) - prefix_weight(weights, from)
        }),
    decreases weights.len() - from,
{
    if from + 1 < weights.len() && offset >= weights[from] {
        lemma_owner_from_bounds(weights, from + 1, offset - weights[from]);
    }
}

/// Backend `i` owns the `weights[i]` slots that follow the blocks of the
/// backends before it: it is selected that many times in a row.
pub proof fn lemma_block_owner(weights: Seq<usize>, i: int, k: int)
    requires
        0 <= i < weights.len(),
        0 <= k < weights[i],
    ensures
        slot_owner(weights, prefix_weight(weights, i) + k) == i,
{
    lemma_owner_from_block(weights, 0, i, k);
}

/// Every slot of the cycle belongs to exactly one backend, the one whose block
/// it lies in. So in each cycle backend `i` is selected `weights[i]` times,
/// no more and no fewer.
pub proof fn lemma_owner_is_block(weights: Seq<usize>, slot: int, i: int)
    requires
        0 <= slot < total_weight(weights),
        0 <= i < weights.len(),
    ensures
        slot_owner(weights, slot) == i <==> prefix_weight(weights, i) <= slot < prefix_weight(
            weights,
            i + 1,
        ),
{
    lemma_owner_from_bounds(weights, 0, slot);
    if prefix_weight(weights, i) <= slot < prefix_weight(weights, i + 1) {
        lemma_block_owner(weights, i, slot - prefix_weight(weights, i));
    }
}

/// The owner of a slot of the cycle is one of the backends.
pub proof fn lemma_owner_in_range(weights: Seq<usize>, slot: int)
    requires
        0 <= slot < total_weight(weights),
    ensures
        0 <= slot_owner(weights, slot) < weights.len(),
{
    if weights.len() > 0 {
        lemma_owner_from_bounds(weights, 0, slot);
    }
}

/// The schedule repeats after one cycle.
pub proof fn lemma_selection_periodic(weights: Seq<usize>, n: nat)
    requires
        total_weight(weights) > 0,
    ensures
        selection(weights, n + total_weight(weights)) == selection(weights, n),
{
    lemma_mod_add_multiples_vanish(n as int, total_weight(weights) as int);
}

/// Within the first cycle the selection number is the slot.
pub proof fn lemma_selection_first_cycle(weights: Seq<usize>, n: nat)
    requires
        n < total_weight(weights),
    ensures
        selection(weights, n) == slot_owner(weights, n as int),
{
    lemma_small_mod(n, total_weight(weights));
}

/// Where every weight is one, the schedule is plain round-robin: selection
/// `n` falls on backend `n` modulo the number of backends.
pub proof fn lemma_unit_weights_round_robin(weights: Seq<usize>, n: nat)
    requires
        weights.len() > 0,
        forall|i: int| 0 <= i < weights.len() ==> weights[i] == 1,
    ensures
        selection(weights, n) == n % weights.len(),
{
    lemma_unit_prefix(weights, weights.len() as int);
    let slot: int = (n % weights.len()) as int;
    lemma_unit_prefix(weights, slot);
    lemma_block_owner(weights, slot, 0);
}

proof fn lemma_unit_prefix(weights: Seq<usize>, count: int)
    requires
        forall|i: int| 0 <= i < weights.len() ==> weights[i] == 1,
        0 <= count <= weights.len(),
    ensures
        prefix_weight(weights, count) == count,
    decreases count,
{
    if count > 0 {
        lemma_unit_prefix(weights, count - 1);
    }
}

/// How many of the selections before number `count` choose backend `i`.
pub open spec fn times_selected(weights: Seq<usize>, i: int, count: nat) -> nat
    decreases count,
{
    if count == 0 {
        0
    } else {
        times_selected(weights, i, (count - 1) as nat) + if selection(
            weights,
            (count - 1) as nat,
        ) == i {
            1nat
        } else {
            0nat
        }
    }
}

/// How many of the slots before `slot` lie in the block of backend `i`.
pub open spec fn block_share(weights: Seq<usize>, i: int, slot: int) -> nat {
    if slot <= prefix_weight(weights, i) {
        0
    } else if slot >= prefix_weight(weights, i + 1) {
        weights[i] as nat
    } else {
        (slot - prefix_weight(weights, i)) as nat
    }
}

/// Among the first `count` selections backend `i` is chosen `weights[i]`
/// times in each full cycle, and in the cycle that has begun as often as its
/// block has been reached: never more, never fewer.
pub proof fn lemma_times_selected(weights: Seq<usize>, i: int, count: nat)
    requires
        all_positive(weights),
        0 <= i < weights.len(),
    ensures
        times_selected(weights, i, count) == (count / total_weight(weights)) * weights[i]
            + block_share(weights, i, (count % total_weight(weights)) as int),
    decreases count,
{
    let total: int = total_weight(weights) as int;
    let weight: int = weights[i] as int;
    lemma_prefix_at_least_count(weights, weights.len() as int);
    lemma_prefix_monotonic(weights, i + 1, weights.len() as int);
    if count == 0 {
        lemma_fundamental_div_mod_converse(0, total, 0, 0);
        assert(0 * weight == 0);
    } else {
        let before: int = count - 1;
        let cycles: int = before / total;
        let slot: int = before % total;
        lemma_times_selected(weights, i, before as nat);
        lemma_fundamental_div_mod(before, total);
        lemma_mod_bound(before, total);
        lemma_owner_is_block(weights, slot, i);
        assert(total * cycles == cycles * total) by (nonlinear_arith);
        if slot + 1 < total {
            lemma_fundamental_div_mod_converse(count as int, total, cycles, slot + 1);
        } else {
            assert((cycles + 1) * total == cycles * total + total) by (nonlinear_arith);
            assert((cycles + 1) * weight == cycles * weight + weight) by (nonlinear_arith);
            lemma_fundamental_div_mod_converse(count as int, total, cycles + 1, 0);
        }
    }
}

/// In one full cycle backend `i` is chosen exactly `weights[i]` times.
pub proof fn lemma_times_selected_in_cycle(weights: Seq<usize>, i: int)
    requires
        all_positive(weights),
        0 <= i < weights.len(),
    ensures
        times_selected(weights, i, total_weight(weights)) == weights[i],
{
    let total: int = total_weight(weights) as int;
    let weight: int = weights[i] as int;
    lemma_prefix_at_least_count(weights, weights.len() as int);
    lemma_times_selected(weights, i, total as nat);
    lemma_fundamental_div_mod_converse(total, total, 1, 0);
    assert(1 * weight == weight);
}

} // verus!
